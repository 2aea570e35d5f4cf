//! Changed parts inside lines that were replaced by similar ones.

use vstd::prelude::*;
use super::text::{cells, chars_to_spans, expand_tabs, joined, styled_chars, tabs_expanded, StyledChar};

use crate::line::{span_views, Span, SpanView};
use crate::model::{line_views, DiffLine, DiffLineKind, LineView};
use crate::patch::kind_count;
use crate::scroll_text::{greatest, least};
use crate::style::Modifier;
use crate::text::{chars_of, is_alphanumeric_char, is_white, same, string_between};

verus! {

/// Most removed or added lines of a block that are compared.
pub const INTRALINE_MAX_BLOCK_LINES: usize = 32;

/// Most tokens of a line that are compared.
pub const INTRALINE_MAX_TOKENS: usize = 512;

/// Share of the word characters that related lines have in common.
pub const INTRALINE_MIN_WORD_SIMILARITY_PERCENT: usize = 35;

/// Share of the characters, white space aside, that related lines without words
/// have in common.
pub const INTRALINE_MIN_FALLBACK_SIMILARITY_PERCENT: usize = 50;

/// Characters `start..end` of a line.
#[derive(Debug, Clone, Copy, PartialEq, Eq, Structural)]
pub struct CharRange {
    pub start: usize,
    pub end: usize,
}

#[derive(Debug, Clone, Copy, PartialEq, Eq, Structural)]
pub enum IntralineTokenKind {
    Word,
    Whitespace,
    Punctuation,
}

/// Which tokens are counted.
#[derive(Debug, Clone, Copy, PartialEq, Eq, Structural)]
pub enum TokenFilter {
    Words,
    NonWhitespace,
}

/// A piece of a line: a run of word characters, a run of white space or a single
/// other character.
#[derive(Debug)]
pub struct IntralineToken {
    pub text: String,
    pub start: usize,
    pub end: usize,
    pub kind: IntralineTokenKind,
}

/// What an [`IntralineToken`] holds.
pub struct TokenView {
    pub text: Seq<char>,
    pub start: int,
    pub end: int,
    pub kind: IntralineTokenKind,
}

impl View for IntralineToken {
    type V = TokenView;

    open spec fn view(&self) -> TokenView {
        TokenView {
            text: self.text@,
            start: self.start as int,
            end: self.end as int,
            kind: self.kind,
        }
    }
}

pub open spec fn token_views(tokens: Seq<IntralineToken>) -> Seq<TokenView> {
    tokens.map_values(|token: IntralineToken| token@)
}

pub open spec fn token_kind(c: char) -> IntralineTokenKind {
    if is_alphanumeric_char(c) || c == '_' {
        IntralineTokenKind::Word
    } else if is_white(c) {
        IntralineTokenKind::Whitespace
    } else {
        IntralineTokenKind::Punctuation
    }
}

/// First position at or behind `from` of a character of another kind.
pub open spec fn kind_end(s: Seq<char>, kind: IntralineTokenKind, from: int) -> int
    decreases s.len() - from,
{
    if from >= s.len() || token_kind(s[from]) != kind {
        from
    } else {
        kind_end(s, kind, from + 1)
    }
}

/// End of the token that starts at a position.
pub open spec fn token_end(s: Seq<char>, start: int) -> int {
    let kind = token_kind(s[start]);
    if kind == IntralineTokenKind::Punctuation { start + 1 } else { kind_end(s, kind, start + 1) }
}

/// The tokens of a text from a position on.
pub open spec fn tokens_from(s: Seq<char>, start: int) -> Seq<TokenView>
    decreases s.len() - start,
    via tokens_from_decreases
{
    if start < 0 || start >= s.len() {
        seq![]
    } else {
        let end = token_end(s, start);
        seq![
            TokenView { text: s.subrange(start, end), start, end, kind: token_kind(s[start]) },
        ] + tokens_from(s, end)
    }
}

#[via_fn]
proof fn tokens_from_decreases(s: Seq<char>, start: int) {
    if 0 <= start < s.len() {
        kind_end_bounds(s, token_kind(s[start]), start + 1);
    }
}

proof fn kind_end_bounds(s: Seq<char>, kind: IntralineTokenKind, from: int)
    requires
        from <= s.len(),
    ensures
        from <= kind_end(s, kind, from) <= s.len(),
    decreases s.len() - from,
{
    if from < s.len() && token_kind(s[from]) == kind {
        kind_end_bounds(s, kind, from + 1);
    }
}

fn intraline_token_kind(character: char) -> (kind: IntralineTokenKind)
    ensures
        kind == token_kind(character),
{
    if character.is_alphanumeric() || character == '_' {
        IntralineTokenKind::Word
    } else if character.is_whitespace() {
        IntralineTokenKind::Whitespace
    } else {
        IntralineTokenKind::Punctuation
    }
}

/// The tokens of a text.
pub fn intraline_tokens(text: &str) -> (tokens: Vec<IntralineToken>)
    ensures
        token_views(tokens@) == tokens_from(text@, 0),
{
    let chars = chars_of(text);
    let mut tokens: Vec<IntralineToken> = Vec::new();
    let ghost all = tokens_from(text@, 0);
    let mut start: usize = 0;
    assert(token_views(tokens@) + all =~= all);
    while start < chars.len()
        invariant
            start <= chars@.len(),
            chars@ == text@,
            token_views(tokens@) + tokens_from(text@, start as int) == all,
        decreases chars@.len() - start,
    {
        let kind = intraline_token_kind(chars[start]);
        let mut end: usize = start + 1;
        if kind != IntralineTokenKind::Punctuation {
            while end < chars.len() && intraline_token_kind(chars[end]) == kind
                invariant
                    start < end <= chars@.len(),
                    chars@ == text@,
                    kind_end(text@, kind, start + 1) == kind_end(text@, kind, end as int),
                decreases chars@.len() - end,
            {
                end = end + 1;
            }
        }
        let ghost before = token_views(tokens@);
        let token = IntralineToken {
            text: string_between(chars.as_slice(), start, end),
            start,
            end,
            kind,
        };
        tokens.push(token);
        proof {
            assert(end == token_end(text@, start as int));
            let rest = tokens_from(text@, end as int);
            assert(token_views(tokens@) =~= before.push(token@));
            assert(before + (seq![token@] + rest) =~= before.push(token@) + rest);
        }
        start = end;
    }
    assert(token_views(tokens@) + tokens_from(text@, start as int) =~= token_views(tokens@));
    tokens
}

/// Whether two tokens read the same.
pub open spec fn tokens_same(left: TokenView, right: TokenView) -> bool {
    left.kind == right.kind && left.text == right.text
}

fn intraline_tokens_equal(left: &IntralineToken, right: &IntralineToken) -> (equal: bool)
    ensures
        equal == tokens_same(left@, right@),
{
    left.kind == right.kind && same(left.text.as_str(), right.text.as_str())
}

/// Length of a longest common subsequence of `a` from `i` on and `b` from `j` on.
pub open spec fn common_length(a: Seq<TokenView>, b: Seq<TokenView>, i: int, j: int) -> nat
    decreases a.len() - i, b.len() - j,
{
    if i < 0 || j < 0 || i >= a.len() || j >= b.len() {
        0
    } else if tokens_same(a[i], b[j]) {
        1 + common_length(a, b, i + 1, j + 1)
    } else {
        let skip_left = common_length(a, b, i + 1, j);
        let skip_right = common_length(a, b, i, j + 1);
        if skip_left >= skip_right { skip_left } else { skip_right }
    }
}

/// Positions of a longest common subsequence of `a` from `i` on and `b` from `j`
/// on: tokens that read the same are paired at once, else the token is skipped
/// behind which more is in common, that of `a` where it makes no difference.
pub open spec fn common_pairs(a: Seq<TokenView>, b: Seq<TokenView>, i: int, j: int) -> Seq<
    (int, int),
>
    decreases a.len() - i, b.len() - j,
{
    if i < 0 || j < 0 || i >= a.len() || j >= b.len() {
        seq![]
    } else if tokens_same(a[i], b[j]) {
        seq![(i, j)] + common_pairs(a, b, i + 1, j + 1)
    } else if common_length(a, b, i + 1, j) >= common_length(a, b, i, j + 1) {
        common_pairs(a, b, i + 1, j)
    } else {
        common_pairs(a, b, i, j + 1)
    }
}

pub open spec fn paired_left(pairs: Seq<(int, int)>, k: int) -> bool {
    exists|p: int| 0 <= p < pairs.len() && (#[trigger] pairs[p]).0 == k
}

pub open spec fn paired_right(pairs: Seq<(int, int)>, k: int) -> bool {
    exists|p: int| 0 <= p < pairs.len() && (#[trigger] pairs[p]).1 == k
}

/// Which tokens of each line belong to the common subsequence.
pub struct CommonIntralineTokens {
    pub removed: Vec<bool>,
    pub added: Vec<bool>,
}

/// The marks of the tokens of the first line that are paired.
pub open spec fn left_marks(a: Seq<TokenView>, b: Seq<TokenView>) -> Seq<bool> {
    Seq::new(a.len(), |k: int| paired_left(common_pairs(a, b, 0, 0), k))
}

/// The marks of the tokens of the second line that are paired.
pub open spec fn right_marks(a: Seq<TokenView>, b: Seq<TokenView>) -> Seq<bool> {
    Seq::new(b.len(), |k: int| paired_right(common_pairs(a, b, 0, 0), k))
}

proof fn common_length_bound(a: Seq<TokenView>, b: Seq<TokenView>, i: int, j: int)
    requires
        0 <= i <= a.len(),
    ensures
        common_length(a, b, i, j) <= a.len() - i,
    decreases a.len() - i, b.len() - j,
{
    if 0 <= j && i < a.len() && j < b.len() {
        common_length_bound(a, b, i + 1, j + 1);
        common_length_bound(a, b, i + 1, j);
        common_length_bound(a, b, i, j + 1);
    }
}

/// Whether a table holds the common lengths of the last column, of all positions
/// from row `i` on and, in the row above, from column `j` on.
spec fn table_filled(
    table: Seq<usize>,
    a: Seq<TokenView>,
    b: Seq<TokenView>,
    i: int,
    j: int,
) -> bool {
    &&& table.len() == (a.len() + 1) * (b.len() + 1)
    &&& forall|x: int, y: int|
        0 <= x <= a.len() && 0 <= y <= b.len() && (y == b.len() || x >= i || (x
            == i - 1 && y >= j)) ==> table[cell_at(
            b,
            x,
            y,
        )] == #[trigger] common_length(a, b, x, y)
}

/// Place of a position in the table.
spec fn cell_at(b: Seq<TokenView>, x: int, y: int) -> int {
    x * (b.len() + 1) + y
}

proof fn cell_at_bounds(a: Seq<TokenView>, b: Seq<TokenView>, x: int, y: int)
    requires
        0 <= x <= a.len(),
        0 <= y <= b.len(),
    ensures
        0 <= cell_at(b, x, y) < (a.len() + 1) * (b.len() + 1),
{
    let w = b.len() + 1;
    let h = a.len() + 1;
    assert(0 <= x * w && x * w + y < h * w) by (nonlinear_arith)
        requires
            0 <= x < h,
            0 <= y < w,
    ;
}

proof fn cell_at_injective(b: Seq<TokenView>, x: int, y: int, u: int, v: int)
    requires
        0 <= y <= b.len(),
        0 <= v <= b.len(),
        cell_at(b, x, y) == cell_at(b, u, v),
    ensures
        x == u,
        y == v,
{
    let w = b.len() + 1;
    assert(x == u) by (nonlinear_arith)
        requires
            0 <= y < w,
            0 <= v < w,
            x * w + y == u * w + v,
    ;
}

/// The common lengths of all positions, row by row.
fn common_length_table(removed: &Vec<IntralineToken>, added: &Vec<IntralineToken>) -> (table: Vec<
    usize,
>)
    requires
        removed@.len() <= INTRALINE_MAX_TOKENS,
        added@.len() <= INTRALINE_MAX_TOKENS,
    ensures
        table_filled(table@, token_views(removed@), token_views(added@), 0, 0),
{
    let ghost a = token_views(removed@);
    let ghost b = token_views(added@);
    let width: usize = added.len() + 1;
    assert((a.len() + 1) * (b.len() + 1) <= 513 * 513) by (nonlinear_arith)
        requires
            a.len() <= 512,
            b.len() <= 512,
    ;
    let total: usize = (removed.len() + 1) * width;
    let mut table: Vec<usize> = Vec::new();
    let mut filled: usize = 0;
    while filled < total
        invariant
            filled <= total,
            table@.len() == filled,
            forall|k: int| 0 <= k < filled ==> table@[k] == 0,
        decreases total - filled,
    {
        table.push(0);
        filled = filled + 1;
    }
    let mut i: usize = removed.len();
    assert forall|x: int, y: int|
        0 <= x <= a.len() && 0 <= y <= b.len() && (y == b.len() || x >= i) implies table@[cell_at(
        b,
        x,
        y,
    )] == #[trigger] common_length(a, b, x, y) by {
        cell_at_bounds(a, b, x, y);
    }
    while i > 0
        invariant
            i <= removed@.len(),
            a == token_views(removed@),
            b == token_views(added@),
            a.len() <= 512,
            b.len() <= 512,
            width == b.len() + 1,
            total == (a.len() + 1) * (b.len() + 1),
            total <= 513 * 513,
            table_filled(table@, a, b, i as int, b.len() as int),
        decreases i,
    {
        let row: usize = i - 1;
        let mut j: usize = added.len();
        while j > 0
            invariant
                j <= added@.len(),
                0 < i <= removed@.len(),
                row == i - 1,
                a == token_views(removed@),
                b == token_views(added@),
                a.len() <= 512,
                b.len() <= 512,
                width == b.len() + 1,
                total == (a.len() + 1) * (b.len() + 1),
                total <= 513 * 513,
                table_filled(table@, a, b, i as int, j as int),
            decreases j,
        {
            let column: usize = j - 1;
            proof {
                cell_at_bounds(a, b, row as int, column as int);
                cell_at_bounds(a, b, row as int, j as int);
                cell_at_bounds(a, b, i as int, column as int);
                cell_at_bounds(a, b, i as int, j as int);
                assert(i * width == row * width + width) by (nonlinear_arith)
                    requires
                        i == row + 1,
                ;
                common_length_bound(a, b, i as int, j as int);
                assert(a[row as int] == removed@[row as int]@);
                assert(b[column as int] == added@[column as int]@);
                assert(table@[cell_at(b, i as int, j as int)] == common_length(
                    a,
                    b,
                    i as int,
                    j as int,
                ));
                assert(table@[cell_at(b, i as int, column as int)] == common_length(
                    a,
                    b,
                    i as int,
                    column as int,
                ));
                assert(table@[cell_at(b, row as int, j as int)] == common_length(
                    a,
                    b,
                    row as int,
                    j as int,
                ));
            }
            let current: usize = row * width + column;
            let skip_removed_index: usize = i * width + column;
            let skip_added_index: usize = current + 1;
            let skip_both_index: usize = skip_removed_index + 1;
            let length: usize = if intraline_tokens_equal(&removed[row], &added[column]) {
                table[skip_both_index] + 1
            } else if table[skip_removed_index] >= table[skip_added_index] {
                table[skip_removed_index]
            } else {
                table[skip_added_index]
            };
            let ghost before = table@;
            table.set(current, length);
            assert(length == common_length(a, b, row as int, column as int));
            assert forall|x: int, y: int|
                0 <= x <= a.len() && 0 <= y <= b.len() && (y == b.len() || x >= i || (x == i - 1
                    && y >= column)) implies table@[cell_at(b, x, y)] == #[trigger] common_length(
                a,
                b,
                x,
                y,
            ) by {
                cell_at_bounds(a, b, x, y);
                if cell_at(b, x, y) == current {
                    cell_at_injective(b, x, y, row as int, column as int);
                } else {
                    assert(before[cell_at(b, x, y)] == common_length(a, b, x, y));
                }
            }
            j = column;
        }
        assert forall|x: int, y: int|
            0 <= x <= a.len() && 0 <= y <= b.len() && (y == b.len() || x >= row) implies table@[cell_at(
            b,
            x,
            y,
        )] == #[trigger] common_length(a, b, x, y) by {
            cell_at_bounds(a, b, x, y);
        }
        i = row;
    }
    table
}


/// The tokens of two lines that belong to a longest common subsequence.
fn common_intraline_tokens(
    removed: &Vec<IntralineToken>,
    added: &Vec<IntralineToken>,
) -> (common: CommonIntralineTokens)
    requires
        removed@.len() <= INTRALINE_MAX_TOKENS,
        added@.len() <= INTRALINE_MAX_TOKENS,
    ensures
        common.removed@ == left_marks(token_views(removed@), token_views(added@)),
        common.added@ == right_marks(token_views(removed@), token_views(added@)),
{
    let ghost a = token_views(removed@);
    let ghost b = token_views(added@);
    let ghost all = common_pairs(a, b, 0, 0);
    let table = common_length_table(removed, added);
    let width: usize = added.len() + 1;
    let mut removed_common = unmarked(removed.len());
    let mut added_common = unmarked(added.len());
    let ghost mut done: Seq<(int, int)> = seq![];
    let mut i: usize = 0;
    let mut j: usize = 0;
    assert(done + all =~= all);
    while i < removed.len() && j < added.len()
        invariant
            i <= removed@.len(),
            j <= added@.len(),
            a == token_views(removed@),
            b == token_views(added@),
            a.len() <= 512,
            b.len() <= 512,
            width == b.len() + 1,
            all == common_pairs(a, b, 0, 0),
            table_filled(table@, a, b, 0, 0),
            done + common_pairs(a, b, i as int, j as int) == all,
            removed_common@.len() == a.len(),
            added_common@.len() == b.len(),
            forall|k: int| 0 <= k < a.len() ==> removed_common@[k] == paired_left(done, k),
            forall|k: int| 0 <= k < b.len() ==> added_common@[k] == paired_right(done, k),
        decreases removed@.len() - i + added@.len() - j,
    {
        assert(a[i as int] == removed@[i as int]@);
        assert(b[j as int] == added@[j as int]@);
        if intraline_tokens_equal(&removed[i], &added[j]) {
            removed_common.set(i, true);
            added_common.set(j, true);
            proof {
                let pair = (i as int, j as int);
                let rest = common_pairs(a, b, i + 1, j + 1);
                assert(done + (seq![pair] + rest) =~= done.push(pair) + rest);
                paired_push(done, pair);
                done = done.push(pair);
            }
            i = i + 1;
            j = j + 1;
        } else {
            proof {
                cell_at_bounds(a, b, i + 1, j as int);
                cell_at_bounds(a, b, i as int, j + 1);
                assert((a.len() + 1) * (b.len() + 1) <= 513 * 513) by (nonlinear_arith)
                    requires
                        a.len() <= 512,
                        b.len() <= 512,
                ;
                assert(0 <= i * width) by (nonlinear_arith)
                    requires
                        0 <= i,
                        0 <= width,
                ;
                assert(table@[cell_at(b, i + 1, j as int)] == common_length(a, b, i + 1, j as int));
                assert(table@[cell_at(b, i as int, j + 1)] == common_length(a, b, i as int, j + 1));
            }
            let skip_removed_len: usize = table[(i + 1) * width + j];
            let skip_added_len: usize = table[i * width + j + 1];
            if skip_removed_len >= skip_added_len {
                i = i + 1;
            } else {
                j = j + 1;
            }
        }
    }
    assert(done =~= all);
    assert(removed_common@ =~= left_marks(a, b));
    assert(added_common@ =~= right_marks(a, b));
    CommonIntralineTokens { removed: removed_common, added: added_common }
}

fn unmarked(count: usize) -> (marks: Vec<bool>)
    ensures
        marks@.len() == count,
        forall|k: int| 0 <= k < count ==> !marks@[k],
{
    let mut marks: Vec<bool> = Vec::new();
    let mut i: usize = 0;
    while i < count
        invariant
            i <= count,
            marks@.len() == i,
            forall|k: int| 0 <= k < i ==> !marks@[k],
        decreases count - i,
    {
        marks.push(false);
        i = i + 1;
    }
    marks
}

proof fn paired_push(pairs: Seq<(int, int)>, pair: (int, int))
    ensures
        forall|k: int|
            #[trigger] paired_left(pairs.push(pair), k) == (paired_left(pairs, k) || k == pair.0),
        forall|k: int|
            #[trigger] paired_right(pairs.push(pair), k) == (paired_right(pairs, k) || k
                == pair.1),
{
    let longer = pairs.push(pair);
    assert(longer[pairs.len() as int] == pair);
    assert forall|p: int| 0 <= p < pairs.len() implies longer[p] == #[trigger] pairs[p] by {}
    assert forall|k: int| #[trigger] paired_left(longer, k) == (paired_left(pairs, k) || k
        == pair.0) by {
        if paired_left(pairs, k) {
            let p = choose|p: int| 0 <= p < pairs.len() && (#[trigger] pairs[p]).0 == k;
            assert(longer[p].0 == k);
        }
        if paired_left(longer, k) {
            let p = choose|p: int| 0 <= p < longer.len() && (#[trigger] longer[p]).0 == k;
            if p < pairs.len() {
                assert(pairs[p].0 == k);
            }
        }
    }
    assert forall|k: int| #[trigger] paired_right(longer, k) == (paired_right(pairs, k) || k
        == pair.1) by {
        if paired_right(pairs, k) {
            let p = choose|p: int| 0 <= p < pairs.len() && (#[trigger] pairs[p]).1 == k;
            assert(longer[p].1 == k);
        }
        if paired_right(longer, k) {
            let p = choose|p: int| 0 <= p < longer.len() && (#[trigger] longer[p]).1 == k;
            if p < pairs.len() {
                assert(pairs[p].1 == k);
            }
        }
    }
}

pub open spec fn counted(filter: TokenFilter, kind: IntralineTokenKind) -> bool {
    match filter {
        TokenFilter::Words => kind == IntralineTokenKind::Word,
        TokenFilter::NonWhitespace => kind != IntralineTokenKind::Whitespace,
    }
}

/// Characters in the first `n` tokens that pass a filter and are marked.
pub open spec fn char_count(
    tokens: Seq<TokenView>,
    marks: Seq<bool>,
    filter: TokenFilter,
    n: int,
) -> int
    decreases n,
{
    if n <= 0 {
        0
    } else {
        char_count(tokens, marks, filter, n - 1) + if counted(filter, tokens[n - 1].kind)
            && marks[n - 1] {
            tokens[n - 1].end - tokens[n - 1].start
        } else {
            0
        }
    }
}

/// Characters in all tokens that pass a filter.
pub open spec fn all_char_count(tokens: Seq<TokenView>, filter: TokenFilter) -> int {
    char_count(tokens, Seq::new(tokens.len(), |k: int| true), filter, tokens.len() as int)
}

/// Whether the lines have enough counted characters in common, `None` where
/// neither has any.
pub open spec fn similar(
    a: Seq<TokenView>,
    b: Seq<TokenView>,
    left: Seq<bool>,
    right: Seq<bool>,
    filter: TokenFilter,
    percent: int,
) -> Option<bool> {
    let whole = greatest(all_char_count(a, filter), all_char_count(b, filter));
    let common = least(
        char_count(a, left, filter, a.len() as int),
        char_count(b, right, filter, b.len() as int),
    );
    if whole == 0 { None } else { Some(common * 100 >= whole * percent) }
}

/// Whether two lines are versions of one: they share enough of their words or,
/// where neither has words, of their other characters.
pub open spec fn related(
    a: Seq<TokenView>,
    b: Seq<TokenView>,
    left: Seq<bool>,
    right: Seq<bool>,
) -> bool {
    match similar(a, b, left, right, TokenFilter::Words, 35) {
        Some(enough) => enough,
        None => similar(a, b, left, right, TokenFilter::NonWhitespace, 50) == Some(true),
    }
}

fn intraline_char_count(
    tokens: &Vec<IntralineToken>,
    common: Option<&Vec<bool>>,
    filter: TokenFilter,
) -> (count: u128)
    requires
        tokens@.len() <= INTRALINE_MAX_TOKENS,
        common is Some ==> common->0@.len() == tokens@.len(),
        forall|k: int| 0 <= k < tokens@.len() ==> (#[trigger] tokens@[k]).start <= tokens@[k].end,
    ensures
        count == char_count(
            token_views(tokens@),
            match common {
                Some(marks) => marks@,
                None => Seq::new(tokens@.len(), |k: int| true),
            },
            filter,
            tokens@.len() as int,
        ),
        count <= 512 * 0xffff_ffff_ffff_ffff,
{
    let ghost views = token_views(tokens@);
    let ghost marks = match common {
        Some(marks) => marks@,
        None => Seq::new(tokens@.len(), |k: int| true),
    };
    let mut count: u128 = 0;
    let mut i: usize = 0;
    while i < tokens.len()
        invariant
            i <= tokens@.len() <= 512,
            views == token_views(tokens@),
            common is Some ==> common->0@.len() == tokens@.len(),
            marks == (match common {
                Some(marks) => marks@,
                None => Seq::new(tokens@.len(), |k: int| true),
            }),
            forall|k: int|
                0 <= k < tokens@.len() ==> (#[trigger] tokens@[k]).start <= tokens@[k].end,
            count == char_count(views, marks, filter, i as int),
            count <= i * 0xffff_ffff_ffff_ffff,
        decreases tokens@.len() - i,
    {
        assert(views[i as int] == tokens@[i as int]@);
        let marked = match common {
            Some(marks) => marks[i],
            None => true,
        };
        if counts_token(filter, tokens[i].kind) && marked {
            count = count + (tokens[i].end - tokens[i].start) as u128;
        }
        i = i + 1;
    }
    count
}

fn counts_token(filter: TokenFilter, kind: IntralineTokenKind) -> (counts: bool)
    ensures
        counts == counted(filter, kind),
{
    match filter {
        TokenFilter::Words => kind == IntralineTokenKind::Word,
        TokenFilter::NonWhitespace => kind != IntralineTokenKind::Whitespace,
    }
}

fn intraline_similarity_meets_threshold(
    removed: &Vec<IntralineToken>,
    added: &Vec<IntralineToken>,
    common: &CommonIntralineTokens,
    filter: TokenFilter,
    min_similarity_percent: u128,
) -> (meets: Option<bool>)
    requires
        removed@.len() <= INTRALINE_MAX_TOKENS,
        added@.len() <= INTRALINE_MAX_TOKENS,
        common.removed@.len() == removed@.len(),
        common.added@.len() == added@.len(),
        min_similarity_percent <= 100,
        forall|k: int|
            0 <= k < removed@.len() ==> (#[trigger] removed@[k]).start <= removed@[k].end,
        forall|k: int| 0 <= k < added@.len() ==> (#[trigger] added@[k]).start <= added@[k].end,
    ensures
        meets == similar(
            token_views(removed@),
            token_views(added@),
            common.removed@,
            common.added@,
            filter,
            min_similarity_percent as int,
        ),
{
    let removed_all: u128 = intraline_char_count(removed, None, filter);
    let added_all: u128 = intraline_char_count(added, None, filter);
    let whole: u128 = if removed_all >= added_all { removed_all } else { added_all };
    assert(token_views(removed@).len() == removed@.len());
    assert(token_views(added@).len() == added@.len());
    if whole == 0 {
        return None;
    }
    let removed_common: u128 = intraline_char_count(removed, Some(&common.removed), filter);
    let added_common: u128 = intraline_char_count(added, Some(&common.added), filter);
    let shared: u128 = if removed_common <= added_common { removed_common } else { added_common };
    assert(whole * min_similarity_percent <= 512 * 0xffff_ffff_ffff_ffff * 100)
        by (nonlinear_arith)
        requires
            whole <= 512 * 0xffff_ffff_ffff_ffff,
            min_similarity_percent <= 100,
    ;
    Some(shared * 100 >= whole * min_similarity_percent)
}

fn intraline_lines_are_related(
    removed: &Vec<IntralineToken>,
    added: &Vec<IntralineToken>,
    common: &CommonIntralineTokens,
) -> (are: bool)
    requires
        removed@.len() <= INTRALINE_MAX_TOKENS,
        added@.len() <= INTRALINE_MAX_TOKENS,
        common.removed@.len() == removed@.len(),
        common.added@.len() == added@.len(),
        forall|k: int|
            0 <= k < removed@.len() ==> (#[trigger] removed@[k]).start <= removed@[k].end,
        forall|k: int| 0 <= k < added@.len() ==> (#[trigger] added@[k]).start <= added@[k].end,
    ensures
        are == related(
            token_views(removed@),
            token_views(added@),
            common.removed@,
            common.added@,
        ),
{
    if let Some(enough) = intraline_similarity_meets_threshold(
        removed,
        added,
        common,
        TokenFilter::Words,
        INTRALINE_MIN_WORD_SIMILARITY_PERCENT as u128,
    ) {
        return enough;
    }
    match intraline_similarity_meets_threshold(
        removed,
        added,
        common,
        TokenFilter::NonWhitespace,
        INTRALINE_MIN_FALLBACK_SIMILARITY_PERCENT as u128,
    ) {
        Some(enough) => enough,
        None => false,
    }
}

/// The first position at or behind `from` that is marked, the end without one.
pub open spec fn marked_from(marks: Seq<bool>, from: int) -> int
    decreases marks.len() - from,
{
    if from >= marks.len() || marks[from] { from } else { marked_from(marks, from + 1) }
}

proof fn marked_from_bounds(marks: Seq<bool>, from: int)
    requires
        from <= marks.len(),
    ensures
        from <= marked_from(marks, from) <= marks.len(),
    decreases marks.len() - from,
{
    if from < marks.len() && !marks[from] {
        marked_from_bounds(marks, from + 1);
    }
}

/// The ranges that the runs of unmarked tokens from `from` on cover.
pub open spec fn changed_from(tokens: Seq<TokenView>, marks: Seq<bool>, from: int) -> Seq<CharRange>
    decreases marks.len() - from,
    via changed_from_decreases
{
    if from < 0 || from >= marks.len() {
        seq![]
    } else if marks[from] {
        changed_from(tokens, marks, from + 1)
    } else {
        let end = marked_from(marks, from + 1);
        seq![
            CharRange { start: tokens[from].start as usize, end: tokens[end - 1].end as usize },
        ] + changed_from(tokens, marks, end)
    }
}

#[via_fn]
proof fn changed_from_decreases(tokens: Seq<TokenView>, marks: Seq<bool>, from: int) {
    if 0 <= from < marks.len() {
        marked_from_bounds(marks, from + 1);
    }
}

fn changed_intraline_ranges(tokens: &Vec<IntralineToken>, common: &Vec<bool>) -> (ranges: Vec<
    CharRange,
>)
    requires
        common@.len() == tokens@.len(),
    ensures
        ranges@ == changed_from(token_views(tokens@), common@, 0),
{
    let ghost views = token_views(tokens@);
    let ghost all = changed_from(views, common@, 0);
    let mut ranges: Vec<CharRange> = Vec::new();
    let mut i: usize = 0;
    assert(ranges@ + all =~= all);
    while i < tokens.len()
        invariant
            i <= tokens@.len(),
            common@.len() == tokens@.len(),
            views == token_views(tokens@),
            ranges@ + changed_from(views, common@, i as int) == all,
        decreases tokens@.len() - i,
    {
        if common[i] {
            i = i + 1;
        } else {
            let mut end: usize = i + 1;
            while end < tokens.len() && !common[end]
                invariant
                    i < end <= tokens@.len(),
                    common@.len() == tokens@.len(),
                    marked_from(common@, i + 1) == marked_from(common@, end as int),
                decreases tokens@.len() - end,
            {
                end = end + 1;
            }
            let range = CharRange { start: tokens[i].start, end: tokens[end - 1].end };
            proof {
                assert(views[i as int] == tokens@[i as int]@);
                assert(views[end - 1] == tokens@[end - 1]@);
                let rest = changed_from(views, common@, end as int);
                assert(ranges@ + (seq![range] + rest) =~= ranges@.push(range) + rest);
            }
            ranges.push(range);
            i = end;
        }
    }
    assert(ranges@ + changed_from(views, common@, i as int) =~= ranges@);
    ranges
}

/// The changed ranges of a removed and an added line, where the lines are
/// versions of one: not the same, neither empty nor too long, and related.
pub open spec fn pair_ranges(removed: Seq<char>, added: Seq<char>) -> Option<
    (Seq<CharRange>, Seq<CharRange>),
> {
    let a = tokens_from(tabs_expanded(removed), 0);
    let b = tokens_from(tabs_expanded(added), 0);
    let left = left_marks(a, b);
    let right = right_marks(a, b);
    let removed_ranges = changed_from(a, left, 0);
    let added_ranges = changed_from(b, right, 0);
    if tabs_expanded(removed) == tabs_expanded(added) || a.len() == 0 || b.len() == 0 || a.len()
        > 512 || b.len() > 512 || !related(a, b, left, right) || (removed_ranges.len() == 0
        && added_ranges.len() == 0) {
        None
    } else {
        Some((removed_ranges, added_ranges))
    }
}

pub struct IntralinePairRanges {
    pub removed: Vec<CharRange>,
    pub added: Vec<CharRange>,
}

proof fn tokens_from_ordered(s: Seq<char>, start: int)
    ensures
        forall|k: int|
            0 <= k < tokens_from(s, start).len() ==> (#[trigger] tokens_from(s, start)[k]).start
                <= tokens_from(s, start)[k].end,
    decreases s.len() - start,
{
    if 0 <= start < s.len() {
        kind_end_bounds(s, token_kind(s[start]), start + 1);
        let end = token_end(s, start);
        tokens_from_ordered(s, end);
        let all = tokens_from(s, start);
        let rest = tokens_from(s, end);
        assert forall|k: int| 0 <= k < all.len() implies (#[trigger] all[k]).start
            <= all[k].end by {
            if k > 0 {
                assert(all[k] == rest[k - 1]);
            }
        }
    }
}

pub fn intraline_pair_ranges(removed: &str, added: &str) -> (ranges: Option<IntralinePairRanges>)
    ensures
        match ranges {
            Some(found) => pair_ranges(removed@, added@) == Some((found.removed@, found.added@)),
            None => pair_ranges(removed@, added@) is None,
        },
{
    let removed_text = expand_tabs(removed);
    let added_text = expand_tabs(added);
    if same(removed_text.as_str(), added_text.as_str()) {
        return None;
    }
    let removed_tokens = intraline_tokens(removed_text.as_str());
    let added_tokens = intraline_tokens(added_text.as_str());
    let ghost a = token_views(removed_tokens@);
    let ghost b = token_views(added_tokens@);
    assert(a.len() == removed_tokens@.len() && b.len() == added_tokens@.len());
    if removed_tokens.len() == 0 || added_tokens.len() == 0 || removed_tokens.len()
        > INTRALINE_MAX_TOKENS || added_tokens.len() > INTRALINE_MAX_TOKENS {
        return None;
    }
    let common = common_intraline_tokens(&removed_tokens, &added_tokens);
    proof {
        tokens_from_ordered(removed_text@, 0);
        tokens_from_ordered(added_text@, 0);
        assert forall|k: int| 0 <= k < removed_tokens@.len() implies (
        #[trigger] removed_tokens@[k]).start <= removed_tokens@[k].end by {
            assert(a[k].start <= a[k].end);
        }
        assert forall|k: int| 0 <= k < added_tokens@.len() implies (
        #[trigger] added_tokens@[k]).start <= added_tokens@[k].end by {
            assert(b[k].start <= b[k].end);
        }
    }
    if !intraline_lines_are_related(&removed_tokens, &added_tokens, &common) {
        return None;
    }
    let removed_ranges = changed_intraline_ranges(&removed_tokens, &common.removed);
    let added_ranges = changed_intraline_ranges(&added_tokens, &common.added);
    if removed_ranges.len() == 0 && added_ranges.len() == 0 {
        return None;
    }
    Some(IntralinePairRanges { removed: removed_ranges, added: added_ranges })
}


/// Whether a line may have a counterpart on the other side.
pub open spec fn changes_line(kind: DiffLineKind) -> bool {
    kind is Added || kind is Removed
}

pub fn is_intraline_candidate(kind: DiffLineKind) -> (is: bool)
    ensures
        is == changes_line(kind),
{
    matches!(kind, DiffLineKind::Added | DiffLineKind::Removed)
}

/// End of the run of changed lines at a position.
pub open spec fn block_end(lines: Seq<LineView>, from: int) -> int
    decreases lines.len() - from,
{
    if from >= lines.len() || !changes_line(lines[from].kind) {
        from
    } else {
        block_end(lines, from + 1)
    }
}

pub fn intraline_block_end(lines: &Vec<DiffLine>, start: usize) -> (end: usize)
    requires
        start <= lines@.len(),
    ensures
        end == block_end(line_views(lines@), start as int),
        start <= end <= lines@.len(),
{
    let ghost views = line_views(lines@);
    let mut end: usize = start;
    while end < lines.len() && is_intraline_candidate(lines[end].kind)
        invariant
            start <= end <= lines@.len(),
            views == line_views(lines@),
            block_end(views, start as int) == block_end(views, end as int),
        decreases lines@.len() - end,
    {
        assert(views[end as int] == lines@[end as int]@);
        end = end + 1;
    }
    assert(end < lines@.len() ==> views[end as int] == lines@[end as int]@);
    end
}

/// Positions of the lines of a kind among the first `n`.
pub open spec fn kind_positions(lines: Seq<LineView>, kind: DiffLineKind, n: int) -> Seq<usize>
    decreases n,
{
    if n <= 0 {
        seq![]
    } else if lines[n - 1].kind == kind {
        kind_positions(lines, kind, n - 1).push((n - 1) as usize)
    } else {
        kind_positions(lines, kind, n - 1)
    }
}

/// The changed ranges of a line of a block. The removed lines of a block are
/// compared with its added lines, the first with the first and so on, unless
/// there are too many of either.
pub open spec fn line_ranges(block: Seq<LineView>, k: int) -> Seq<CharRange> {
    let removed = kind_positions(block, DiffLineKind::Removed, block.len() as int);
    let added = kind_positions(block, DiffLineKind::Added, block.len() as int);
    let kind = block[k].kind;
    let rank = kind_count(block.take(k), kind) as int;
    if removed.len() > 32 || added.len() > 32 {
        seq![]
    } else if kind is Removed && rank < added.len() {
        match pair_ranges(block[k].content, block[added[rank] as int].content) {
            Some((ranges, _)) => ranges,
            None => seq![],
        }
    } else if kind is Added && rank < removed.len() {
        match pair_ranges(block[removed[rank] as int].content, block[k].content) {
            Some((_, ranges)) => ranges,
            None => seq![],
        }
    } else {
        seq![]
    }
}

/// The lines of a kind stand at the listed positions, in order.
proof fn kind_positions_listed(lines: Seq<LineView>, kind: DiffLineKind, n: int)
    requires
        0 <= n <= lines.len() <= usize::MAX,
    ensures
        kind_positions(lines, kind, n).len() == kind_count(lines.take(n), kind),
        forall|m: int|
            0 <= m < kind_positions(lines, kind, n).len() ==> {
                let at = #[trigger] kind_positions(lines, kind, n)[m];
                at < n && lines[at as int].kind == kind && kind_count(lines.take(at as int), kind)
                    == m
            },
        forall|k: int|
            0 <= k < n && (#[trigger] lines[k]).kind == kind ==> kind_count(lines.take(k), kind)
                < kind_positions(lines, kind, n).len() && kind_positions(lines, kind, n)[kind_count(
                lines.take(k),
                kind,
            ) as int] == k,
    decreases n,
{
    if n > 0 {
        kind_positions_listed(lines, kind, n - 1);
        assert(lines.take(n).drop_last() =~= lines.take(n - 1));
        let all = kind_positions(lines, kind, n);
        let before = kind_positions(lines, kind, n - 1);
        assert forall|m: int| 0 <= m < all.len() implies {
            let at = #[trigger] all[m];
            at < n && lines[at as int].kind == kind && kind_count(lines.take(at as int), kind) == m
        } by {
            if m < before.len() {
                assert(all[m] == before[m]);
            }
        }
    } else {
        assert(lines.take(0) =~= seq![]);
    }
}

fn positions_of_kind(block: &[DiffLine], kind: DiffLineKind) -> (positions: Vec<usize>)
    ensures
        positions@ == kind_positions(line_views(block@), kind, block@.len() as int),
{
    let ghost views = line_views(block@);
    let mut positions: Vec<usize> = Vec::new();
    let mut i: usize = 0;
    while i < block.len()
        invariant
            i <= block@.len(),
            views == line_views(block@),
            positions@ == kind_positions(views, kind, i as int),
        decreases block@.len() - i,
    {
        assert(views[i as int] == block@[i as int]@);
        if block[i].kind == kind {
            positions.push(i);
        }
        i = i + 1;
    }
    positions
}

/// Whether the ranges of a line have been filled in once the first `n` pairs have
/// been compared.
spec fn range_settled(block: Seq<LineView>, ranges: Seq<CharRange>, k: int, n: int) -> bool {
    let kind = block[k].kind;
    if changes_line(kind) && kind_count(block.take(k), kind) < n {
        ranges == line_ranges(block, k)
    } else {
        ranges == Seq::<CharRange>::empty()
    }
}

/// The changed ranges of each line of a block of changed lines.
pub fn intraline_ranges_for_block(block: &[DiffLine]) -> (ranges: Vec<Vec<CharRange>>)
    ensures
        ranges@.len() == block@.len(),
        forall|k: int|
            0 <= k < block@.len() ==> (#[trigger] ranges@[k])@ == line_ranges(
                line_views(block@),
                k,
            ),
{
    let ghost lines = line_views(block@);
    let mut ranges: Vec<Vec<CharRange>> = Vec::new();
    while ranges.len() < block.len()
        invariant
            ranges@.len() <= block@.len(),
            forall|k: int|
                0 <= k < ranges@.len() ==> (#[trigger] ranges@[k])@ == Seq::<CharRange>::empty(),
        decreases block@.len() - ranges@.len(),
    {
        ranges.push(Vec::new());
    }
    let removed = positions_of_kind(block, DiffLineKind::Removed);
    let added = positions_of_kind(block, DiffLineKind::Added);
    let block_len: usize = block.len();
    proof {
        kind_positions_listed(lines, DiffLineKind::Removed, lines.len() as int);
        kind_positions_listed(lines, DiffLineKind::Added, lines.len() as int);
    }
    if removed.len() == 0 || added.len() == 0 || removed.len() > INTRALINE_MAX_BLOCK_LINES
        || added.len() > INTRALINE_MAX_BLOCK_LINES {
        assert forall|k: int| 0 <= k < block@.len() implies (#[trigger] ranges@[k])@
            == line_ranges(lines, k) by {
            assert(lines[k] == block@[k]@);
            assert(line_ranges(lines, k) =~= seq![]);
        }
        return ranges;
    }
    let pairs: usize = if removed.len() <= added.len() { removed.len() } else { added.len() };
    let mut n: usize = 0;
    while n < pairs
        invariant
            n <= pairs,
            pairs == least(removed@.len() as int, added@.len() as int),
            removed@.len() <= 32,
            added@.len() <= 32,
            lines == line_views(block@),
            lines.len() <= usize::MAX,
            removed@ == kind_positions(lines, DiffLineKind::Removed, lines.len() as int),
            added@ == kind_positions(lines, DiffLineKind::Added, lines.len() as int),
            ranges@.len() == block@.len(),
            forall|k: int|
                0 <= k < block@.len() ==> range_settled(
                    lines,
                    (#[trigger] ranges@[k])@,
                    k,
                    n as int,
                ),
        decreases pairs - n,
    {
        proof {
            kind_positions_listed(lines, DiffLineKind::Removed, lines.len() as int);
            kind_positions_listed(lines, DiffLineKind::Added, lines.len() as int);
        }
        let removed_index: usize = removed[n];
        let added_index: usize = added[n];
        assert(lines[removed_index as int] == block@[removed_index as int]@);
        assert(lines[added_index as int] == block@[added_index as int]@);
        let ghost before = ranges@;
        if let Some(found) = intraline_pair_ranges(
            block[removed_index].content.as_str(),
            block[added_index].content.as_str(),
        ) {
            ranges.set(removed_index, found.removed);
            ranges.set(added_index, found.added);
        }
        assert forall|k: int| 0 <= k < block@.len() implies range_settled(
            lines,
            (#[trigger] ranges@[k])@,
            k,
            n + 1,
        ) by {
            assert(range_settled(lines, before[k]@, k, n as int));
            let kind = lines[k].kind;
            if changes_line(kind) && kind_count(lines.take(k), kind) == n {
                assert(kind_positions(lines, kind, lines.len() as int)[n as int] == k);
            }
        }
        n = n + 1;
    }
    assert forall|k: int| 0 <= k < block@.len() implies (#[trigger] ranges@[k])@ == line_ranges(
        lines,
        k,
    ) by {
        assert(range_settled(lines, ranges@[k]@, k, n as int));
        kind_positions_listed(lines, DiffLineKind::Removed, lines.len() as int);
        kind_positions_listed(lines, DiffLineKind::Added, lines.len() as int);
        assert(line_ranges(lines, k) =~= ranges@[k]@);
    }
    ranges
}

/// Whether a range covers a position.
pub open spec fn in_ranges(ranges: Seq<CharRange>, i: int) -> bool {
    exists|r: int| 0 <= r < ranges.len() && (#[trigger] ranges[r]).start <= i < ranges[r].end
}

/// Spans with the characters in some ranges in bold.
pub open spec fn emphasized(spans: Seq<SpanView>, ranges: Seq<CharRange>) -> Seq<SpanView> {
    if ranges.len() == 0 {
        spans
    } else {
        let chars = cells(spans);
        joined(
            Seq::new(
                chars.len(),
                |i: int|
                    if in_ranges(ranges, i) {
                        StyledChar {
                            style: chars[i].style.add_modifier(Modifier::Bold),
                            ..chars[i]
                        }
                    } else {
                        chars[i]
                    },
            ),
        )
    }
}

fn covered(ranges: &Vec<CharRange>, i: usize) -> (is: bool)
    ensures
        is == in_ranges(ranges@, i as int),
{
    let mut r: usize = 0;
    while r < ranges.len()
        invariant
            r <= ranges@.len(),
            forall|q: int| 0 <= q < r ==> !((#[trigger] ranges@[q]).start <= i < ranges@[q].end),
        decreases ranges@.len() - r,
    {
        if ranges[r].start <= i && i < ranges[r].end {
            return true;
        }
        r = r + 1;
    }
    false
}

pub fn emphasize_spans(spans: Vec<Span>, ranges: &Vec<CharRange>) -> (shown: Vec<Span>)
    ensures
        span_views(shown@) == emphasized(span_views(spans@), ranges@),
{
    if ranges.len() == 0 {
        return spans;
    }
    let mut chars = styled_chars(&spans);
    let ghost plain = chars@;
    let mut i: usize = 0;
    while i < chars.len()
        invariant
            i <= chars@.len(),
            chars@.len() == plain.len(),
            forall|j: int| i <= j < plain.len() ==> chars@[j] == plain[j],
            forall|j: int|
                0 <= j < i ==> #[trigger] chars@[j] == if in_ranges(ranges@, j) {
                    (StyledChar {
                        style: plain[j].style.add_modifier(Modifier::Bold),
                        ..plain[j]
                    })
                } else {
                    plain[j]
                },
        decreases chars@.len() - i,
    {
        if covered(ranges, i) {
            let character = chars[i];
            let style = character.style.add_modifier(Modifier::Bold);
            chars.set(i, StyledChar { style, ..character });
        }
        i = i + 1;
    }
    assert(chars@ =~= Seq::new(
        plain.len(),
        |i: int|
            if in_ranges(ranges@, i) {
                StyledChar { style: plain[i].style.add_modifier(Modifier::Bold), ..plain[i] }
            } else {
                plain[i]
            },
    ));
    chars_to_spans(chars.as_slice())
}

/// Whether pairs of positions, both sides strictly increasing, pair tokens that
/// read the same, from `i` and `j` on.
pub open spec fn alignment(
    a: Seq<TokenView>,
    b: Seq<TokenView>,
    pairs: Seq<(int, int)>,
    i: int,
    j: int,
) -> bool {
    &&& forall|p: int|
        0 <= p < pairs.len() ==> i <= (#[trigger] pairs[p]).0 < a.len() && j <= pairs[p].1
            < b.len() && tokens_same(a[pairs[p].0], b[pairs[p].1])
    &&& forall|p: int, q: int|
        0 <= p < q < pairs.len() ==> (#[trigger] pairs[p]).0 < (#[trigger] pairs[q]).0
            && pairs[p].1 < pairs[q].1
}

proof fn common_length_steps(a: Seq<TokenView>, b: Seq<TokenView>, i: int, j: int)
    requires
        0 <= i,
        0 <= j,
    ensures
        common_length(a, b, i + 1, j) <= common_length(a, b, i, j) <= common_length(
            a,
            b,
            i + 1,
            j,
        ) + 1,
        common_length(a, b, i, j + 1) <= common_length(a, b, i, j) <= common_length(
            a,
            b,
            i,
            j + 1,
        ) + 1,
    decreases a.len() - i + b.len() - j,
{
    if i < a.len() && j < b.len() {
        common_length_steps(a, b, i + 1, j);
        common_length_steps(a, b, i, j + 1);
        common_length_steps(a, b, i + 1, j + 1);
    }
}

proof fn no_alignment_is_longer(
    a: Seq<TokenView>,
    b: Seq<TokenView>,
    pairs: Seq<(int, int)>,
    i: int,
    j: int,
)
    requires
        0 <= i,
        0 <= j,
        alignment(a, b, pairs, i, j),
    ensures
        pairs.len() <= common_length(a, b, i, j),
    decreases a.len() - i + b.len() - j,
{
    if pairs.len() > 0 {
        let first = pairs[0];
        common_length_steps(a, b, i, j);
        if first.0 == i && first.1 == j {
            let rest = pairs.skip(1);
            assert forall|p: int| 0 <= p < rest.len() implies i + 1 <= (#[trigger] rest[p]).0
                < a.len() && j + 1 <= rest[p].1 < b.len() && tokens_same(
                a[rest[p].0],
                b[rest[p].1],
            ) by {
                assert(rest[p] == pairs[p + 1]);
                assert(pairs[0].0 < pairs[p + 1].0);
            }
            no_alignment_is_longer(a, b, rest, i + 1, j + 1);
        } else if first.0 > i {
            assert forall|p: int| 0 <= p < pairs.len() implies i + 1 <= (
            #[trigger] pairs[p]).0 by {
                if p > 0 {
                    assert(pairs[0].0 < pairs[p].0);
                }
            }
            no_alignment_is_longer(a, b, pairs, i + 1, j);
        } else {
            assert forall|p: int| 0 <= p < pairs.len() implies j + 1 <= (
            #[trigger] pairs[p]).1 by {
                if p > 0 {
                    assert(pairs[0].1 < pairs[p].1);
                }
            }
            no_alignment_is_longer(a, b, pairs, i, j + 1);
        }
    }
}

proof fn common_pairs_align(a: Seq<TokenView>, b: Seq<TokenView>, i: int, j: int)
    requires
        0 <= i,
        0 <= j,
    ensures
        alignment(a, b, common_pairs(a, b, i, j), i, j),
        common_pairs(a, b, i, j).len() == common_length(a, b, i, j),
    decreases a.len() - i + b.len() - j,
{
    if i < a.len() && j < b.len() {
        if tokens_same(a[i], b[j]) {
            common_pairs_align(a, b, i + 1, j + 1);
            let all = common_pairs(a, b, i, j);
            let rest = common_pairs(a, b, i + 1, j + 1);
            assert forall|p: int| 0 <= p < all.len() implies all[p] == if p == 0 {
                (i, j)
            } else {
                #[trigger] rest[p - 1]
            } by {}
            assert(alignment(a, b, all, i, j));
        } else if common_length(a, b, i + 1, j) >= common_length(a, b, i, j + 1) {
            common_pairs_align(a, b, i + 1, j);
        } else {
            common_pairs_align(a, b, i, j + 1);
        }
    }
}

/// The tokens that count as unchanged align the two lines: they read the same and
/// stand in the same order. No alignment of the lines is longer.
pub proof fn unchanged_tokens_are_a_longest_alignment(
    a: Seq<TokenView>,
    b: Seq<TokenView>,
    other: Seq<(int, int)>,
)
    requires
        alignment(a, b, other, 0, 0),
    ensures
        alignment(a, b, common_pairs(a, b, 0, 0), 0, 0),
        other.len() <= common_pairs(a, b, 0, 0).len(),
{
    common_pairs_align(a, b, 0, 0);
    no_alignment_is_longer(a, b, other, 0, 0);
}

/// Whether tokens cover a text from a position on.
spec fn covering(tokens: Seq<TokenView>, s: Seq<char>, start: int) -> bool {
    &&& start < s.len() ==> tokens.len() > 0 && tokens[0].start == start && tokens.last().end
        == s.len()
    &&& forall|k: int|
        0 <= k < tokens.len() ==> (#[trigger] tokens[k]).start < tokens[k].end && tokens[k].text
            == s.subrange(tokens[k].start, tokens[k].end)
    &&& forall|k: int, next: int|
        0 <= k && next == k + 1 && next < tokens.len() ==> (#[trigger] tokens[k]).end == (
        #[trigger] tokens[next]).start
}

proof fn tokens_cover_from(s: Seq<char>, start: int)
    requires
        0 <= start <= s.len(),
    ensures
        covering(tokens_from(s, start), s, start),
    decreases s.len() - start,
{
    if start < s.len() {
        kind_end_bounds(s, token_kind(s[start]), start + 1);
        let end = token_end(s, start);
        tokens_cover_from(s, end);
        let first = TokenView {
            text: s.subrange(start, end),
            start,
            end,
            kind: token_kind(s[start]),
        };
        let rest = tokens_from(s, end);
        let all = seq![first] + rest;
        assert(all == tokens_from(s, start));
        assert forall|k: int, next: int|
            0 <= k && next == k + 1 && next < all.len() implies (#[trigger] all[k]).end == (
        #[trigger] all[next]).start by {
            assert(all[next] == rest[k]);
            if k > 0 {
                assert(all[k] == rest[k - 1]);
            }
        }
        if rest.len() > 0 {
            assert(all.last() == rest.last());
        }
    }
}

/// The tokens of a text cover it from its start to its end without gaps or
/// overlaps.
pub proof fn tokens_cover_the_text(s: Seq<char>, k: int)
    requires
        0 <= k < tokens_from(s, 0).len(),
    ensures
        ({
            let tokens = tokens_from(s, 0);
            &&& tokens[0].start == 0
            &&& tokens.last().end == s.len()
            &&& tokens[k].start < tokens[k].end
            &&& tokens[k].text == s.subrange(tokens[k].start, tokens[k].end)
            &&& k > 0 ==> tokens[k].start == tokens[k - 1].end
        }),
{
    tokens_cover_from(s, 0);
    let tokens = tokens_from(s, 0);
    if k > 0 {
        assert(tokens[k - 1].end == tokens[k].start);
    }
}

} // verus!
