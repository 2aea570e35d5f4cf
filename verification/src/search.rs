//! Literal diff search: prompt input, match finding, navigation, and highlight.
//!
//! The caller owns scroll and viewport state and feeds rendered lines in; this
//! module owns the query lifecycle, match coordinates, and the styled-span surgery
//! that highlights matches.

use vstd::prelude::*;

use crate::input::{accepts_text_input, types_text, KeyCode, KeyEvent};
use crate::line::{row_views, spans_text, Line, RowView};
use crate::rows::text::{
    cell, cells, cells_measured, chars_to_spans, joined, joined_keeps_cells, styled_chars, values,
    StyledChar,
};
use crate::scroll_text::least;
use crate::style::{Modifier, Style};
use crate::text::{ascii_lower, chars_of, lower_ascii, same};
use crate::theme::Theme;

verus! {

/// Characters `start..end` of a rendered row.
#[derive(Debug, Clone, Copy, PartialEq, Eq, Structural)]
pub struct SearchMatch {
    pub row: usize,
    pub start: usize,
    pub end: usize,
}

#[derive(Debug)]
pub struct Search {
    pub prompt_open: bool,
    pub input: String,
    pub query: String,
    pub matches: Vec<SearchMatch>,
    pub active_index: Option<usize>,
    pub match_file_id: Option<String>,
    pub scroll_pending: bool,
}

/// What a [`Search`] holds.
pub struct SearchView {
    pub prompt_open: bool,
    pub input: Seq<char>,
    pub query: Seq<char>,
    pub matches: Seq<SearchMatch>,
    pub active_index: Option<usize>,
    pub match_file_id: Option<Seq<char>>,
    pub scroll_pending: bool,
}

/// What the status line shows of a search.
#[derive(Debug, Clone, Copy, PartialEq, Eq)]
pub enum SearchStatus<'a> {
    Prompt { input: &'a str },
    Active { query: &'a str, active: Option<usize>, total: usize },
}

/// What a [`SearchStatus`] holds.
pub enum SearchStatusView {
    Prompt { input: Seq<char> },
    Active { query: Seq<char>, active: Option<int>, total: int },
}

pub open spec fn text_option(text: Option<String>) -> Option<Seq<char>> {
    match text {
        Some(inner) => Some(inner@),
        None => None,
    }
}

impl View for Search {
    type V = SearchView;

    open spec fn view(&self) -> SearchView {
        SearchView {
            prompt_open: self.prompt_open,
            input: self.input@,
            query: self.query@,
            matches: self.matches@,
            active_index: self.active_index,
            match_file_id: text_option(self.match_file_id),
            scroll_pending: self.scroll_pending,
        }
    }
}

impl<'a> View for SearchStatus<'a> {
    type V = SearchStatusView;

    open spec fn view(&self) -> SearchStatusView {
        match *self {
            SearchStatus::Prompt { input } => SearchStatusView::Prompt { input: input@ },
            SearchStatus::Active { query, active, total } => SearchStatusView::Active {
                query: query@,
                active: match active {
                    Some(number) => Some(number as int),
                    None => None,
                },
                total: total as int,
            },
        }
    }
}

/// Whether two characters are equal up to ASCII case.
pub open spec fn chars_match(left: char, right: char) -> bool {
    ascii_lower(left) == ascii_lower(right)
}

/// Whether the query stands in the text at a position, up to ASCII case.
pub open spec fn matches_at(text: Seq<char>, query: Seq<char>, at: int) -> bool {
    &&& 0 <= at
    &&& at + query.len() <= text.len()
    &&& forall|i: int| 0 <= i < query.len() ==> chars_match(#[trigger] text[at + i], query[i])
}

/// The matches of a query in a row, at or behind a position. They may overlap.
pub open spec fn row_matches_from(
    text: Seq<char>,
    query: Seq<char>,
    row: int,
    from: int,
) -> Seq<SearchMatch>
    decreases text.len() - from,
{
    if query.len() == 0 || from < 0 || from >= text.len() {
        seq![]
    } else {
        let rest = row_matches_from(text, query, row, from + 1);
        if matches_at(text, query, from) {
            seq![
                SearchMatch {
                    row: row as usize,
                    start: from as usize,
                    end: (from + query.len()) as usize,
                },
            ] + rest
        } else {
            rest
        }
    }
}

/// The matches of a query in the rows, from top to bottom and left to right.
pub open spec fn matches_in_rows(rows: Seq<RowView>, query: Seq<char>) -> Seq<SearchMatch>
    decreases rows.len(),
{
    if rows.len() == 0 {
        seq![]
    } else {
        matches_in_rows(rows.drop_last(), query) + row_matches_from(
            spans_text(rows.last().spans),
            query,
            rows.len() - 1,
            0,
        )
    }
}

/// Whether a match covers a character of a row.
pub open spec fn covers(found: SearchMatch, row: int, index: int) -> bool {
    found.row == row && found.start <= index < found.end
}

/// The style of a character of a row: marked where the active match covers it,
/// less so where another one does.
pub open spec fn match_style(
    search: SearchView,
    row: int,
    index: int,
    base: Style,
    theme: Theme,
) -> Style {
    if search.active_covers(row, index) {
        base.fg(theme.on_accent).bg(theme.accent).add_modifier(Modifier::Bold)
    } else if search.any_covers(row, index) {
        base.bg(theme.selected).add_modifier(Modifier::Bold)
    } else {
        base
    }
}

/// A row with its matches marked.
pub open spec fn highlighted_row(
    search: SearchView,
    line: RowView,
    row: int,
    theme: Theme,
) -> RowView {
    if search.row_has_match(row) {
        let chars = cells(line.spans);
        RowView {
            spans: joined(
                Seq::new(
                    chars.len(),
                    |i: int|
                        StyledChar {
                            style: match_style(search, row, i, chars[i].style, theme),
                            ..chars[i]
                        },
                ),
            ),
            style: line.style,
        }
    } else {
        line
    }
}

impl SearchView {
    pub open spec fn initial() -> SearchView {
        SearchView {
            prompt_open: false,
            input: seq![],
            query: seq![],
            matches: seq![],
            active_index: None,
            match_file_id: None,
            scroll_pending: false,
        }
    }

    /// The active match, if any, is one of the matches.
    pub open spec fn wf(self) -> bool {
        &&& self.matches.len() <= usize::MAX
        &&& self.active_index is Some ==> self.active_index->0 < self.matches.len()
    }

    pub open spec fn without_matches(self) -> SearchView {
        SearchView { matches: seq![], active_index: None, match_file_id: None, ..self }
    }

    pub open spec fn invalidated(self) -> SearchView {
        SearchView {
            scroll_pending: self.scroll_pending || self.query.len() > 0,
            ..self.without_matches()
        }
    }

    pub open spec fn cleared(self) -> SearchView {
        SearchView::initial()
    }

    pub open spec fn prompt_opened(self) -> SearchView {
        SearchView { input: self.query, prompt_open: true, ..self }
    }

    /// The prompt applied: an empty input ends the search, another one replaces
    /// the query.
    pub open spec fn applied(self) -> SearchView {
        if self.input.len() == 0 {
            self.cleared()
        } else {
            SearchView { prompt_open: false, query: self.input, ..self }.invalidated()
        }
    }

    pub open spec fn after_key(self, key: KeyEvent) -> SearchView {
        match key.code {
            KeyCode::Esc => self.cleared(),
            KeyCode::Enter => self.applied(),
            KeyCode::Backspace => SearchView {
                input: if self.input.len() > 0 { self.input.drop_last() } else { self.input },
                ..self
            },
            KeyCode::Char(value) => if types_text(key) {
                SearchView { input: self.input.push(value), ..self }
            } else {
                self
            },
            _ => self,
        }
    }

    /// The search over freshly rendered rows of a file. The active match keeps
    /// its number while the file stays the same.
    pub open spec fn refreshed(self, file_id: Seq<char>, rows: Seq<RowView>) -> SearchView {
        if self.query.len() == 0 {
            self.without_matches()
        } else {
            let found = matches_in_rows(rows, self.query);
            let number = if self.match_file_id == Some(file_id) && self.active_index is Some {
                self.active_index->0
            } else {
                0
            };
            SearchView {
                matches: found,
                active_index: if found.len() == 0 {
                    None
                } else {
                    Some(least(number as int, found.len() - 1) as usize)
                },
                match_file_id: Some(file_id),
                scroll_pending: false,
                ..self
            }
        }
    }

    /// The search with the next or the previous match active, around the ends.
    pub open spec fn advanced(self, forward: bool) -> SearchView {
        if self.matches.len() == 0 {
            SearchView { active_index: None, ..self }
        } else {
            let count = self.matches.len() as int;
            let current = least(
                match self.active_index {
                    Some(index) => index as int,
                    None => 0,
                },
                count - 1,
            );
            let step = if forward { 1int } else { -1 };
            SearchView { active_index: Some(((current + step) % count) as usize), ..self }
        }
    }

    pub open spec fn active_row(self) -> Option<usize> {
        match self.active_index {
            Some(index) => if index < self.matches.len() {
                Some(self.matches[index as int].row)
            } else {
                None
            },
            None => None,
        }
    }

    pub open spec fn active_covers(self, row: int, index: int) -> bool {
        match self.active_index {
            Some(active) => active < self.matches.len() && covers(
                self.matches[active as int],
                row,
                index,
            ),
            None => false,
        }
    }

    pub open spec fn any_covers(self, row: int, index: int) -> bool {
        exists|m: int| 0 <= m < self.matches.len() && covers(#[trigger] self.matches[m], row, index)
    }

    pub open spec fn row_has_match(self, row: int) -> bool {
        exists|m: int| 0 <= m < self.matches.len() && (#[trigger] self.matches[m]).row == row
    }

    pub open spec fn status(self) -> Option<SearchStatusView> {
        if self.prompt_open {
            Some(SearchStatusView::Prompt { input: self.input })
        } else if self.query.len() > 0 {
            Some(
                SearchStatusView::Active {
                    query: self.query,
                    active: match self.active_index {
                        Some(index) => Some(index + 1),
                        None => None,
                    },
                    total: self.matches.len() as int,
                },
            )
        } else {
            None
        }
    }
}

impl Default for Search {
    fn default() -> (search: Self)
        ensures
            search@ == SearchView::initial(),
    {
        let search = Search {
            prompt_open: false,
            input: String::new(),
            query: String::new(),
            matches: Vec::new(),
            active_index: None,
            match_file_id: None,
            scroll_pending: false,
        };
        assert(search@.matches =~= seq![]);
        search
    }
}

impl Search {
    pub fn active_query(&self) -> (query: Option<&str>)
        ensures
            match query {
                Some(text) => self@.query.len() > 0 && text@ == self@.query,
                None => self@.query.len() == 0,
            },
    {
        if self.query.as_str().is_empty() { None } else { Some(self.query.as_str()) }
    }

    pub fn is_prompt_open(&self) -> (open: bool)
        ensures
            open == self@.prompt_open,
    {
        self.prompt_open
    }

    pub fn status(&self) -> (status: Option<SearchStatus<'_>>)
        requires
            self@.wf(),
        ensures
            match status {
                Some(shown) => self@.status() == Some(shown@),
                None => self@.status() is None,
            },
    {
        if self.prompt_open {
            return Some(SearchStatus::Prompt { input: self.input.as_str() });
        }
        match self.active_query() {
            Some(query) => Some(
                SearchStatus::Active {
                    query,
                    active: match self.active_index {
                        Some(index) => Some(index + 1),
                        None => None,
                    },
                    total: self.matches.len(),
                },
            ),
            None => None,
        }
    }

    pub fn open_prompt(&mut self)
        ensures
            final(self)@ == old(self)@.prompt_opened(),
    {
        self.input = self.query.clone();
        self.prompt_open = true;
    }

    pub fn handle_prompt_key(&mut self, key: KeyEvent)
        ensures
            final(self)@ == old(self)@.after_key(key),
            old(self)@.wf() ==> final(self)@.wf(),
    {
        match key.code {
            KeyCode::Esc => self.clear_query(),
            KeyCode::Enter => self.apply_prompt(),
            KeyCode::Backspace => {
                let count: usize = self.input.as_str().unicode_len();
                if count > 0 {
                    let shorter = self.input.as_str().substring_char(0, count - 1).to_owned();
                    self.input = shorter;
                    assert(self.input@ =~= old(self).input@.drop_last());
                }
            },
            KeyCode::Char(value) => {
                if accepts_text_input(key) {
                    self.input.push(value);
                }
            },
            _ => {},
        }
    }

    pub fn clear_query(&mut self)
        ensures
            final(self)@ == old(self)@.cleared(),
            final(self)@.wf(),
    {
        self.prompt_open = false;
        self.query = String::new();
        self.input = String::new();
        self.clear_rendered_matches();
        self.scroll_pending = false;
        assert(self@.query =~= seq![]);
        assert(self@.input =~= seq![]);
    }

    pub fn clear_rendered_matches(&mut self)
        ensures
            final(self)@ == old(self)@.without_matches(),
            final(self)@.wf(),
    {
        self.matches.clear();
        self.active_index = None;
        self.match_file_id = None;
        assert(self@.matches =~= seq![]);
    }

    pub fn invalidate_matches(&mut self)
        ensures
            final(self)@ == old(self)@.invalidated(),
            final(self)@.wf(),
    {
        self.clear_rendered_matches();
        if self.active_query().is_some() {
            self.scroll_pending = true;
        }
    }

    /// Finds the matches in freshly rendered rows. Returns whether the pane owes
    /// a scroll to the active match.
    pub fn refresh_matches(&mut self, file_id: &str, lines: &Vec<Line>) -> (should_scroll: bool)
        ensures
            final(self)@ == old(self)@.refreshed(file_id@, row_views(lines@)),
            final(self)@.wf(),
            should_scroll == (old(self)@.scroll_pending && final(self)@.active_index is Some),
    {
        if self.query.as_str().is_empty() {
            self.clear_rendered_matches();
            return false;
        }
        let same_file = match &self.match_file_id {
            Some(id) => same(id.as_str(), file_id),
            None => false,
        };
        let number: usize = if same_file {
            match self.active_index {
                Some(index) => index,
                None => 0,
            }
        } else {
            0
        };
        self.matches = diff_search_matches(lines, self.query.as_str());
        self.match_file_id = Some(file_id.to_owned());
        let count: usize = self.matches.len();
        self.active_index = if count == 0 {
            None
        } else if number < count - 1 {
            Some(number)
        } else {
            Some(count - 1)
        };
        let should_scroll = self.scroll_pending && self.active_index.is_some();
        self.scroll_pending = false;
        should_scroll
    }

    pub fn advance_match(&mut self, forward: bool) -> (moved: bool)
        ensures
            final(self)@ == old(self)@.advanced(forward),
            final(self)@.wf(),
            moved == (old(self)@.matches.len() > 0),
    {
        let count: usize = self.matches.len();
        if count == 0 {
            self.active_index = None;
            return false;
        }
        let index: usize = match self.active_index {
            Some(index) => index,
            None => 0,
        };
        let current: usize = if index < count - 1 { index } else { count - 1 };
        let next: usize = if forward {
            if current + 1 == count { 0 } else { current + 1 }
        } else if current == 0 {
            count - 1
        } else {
            current - 1
        };
        proof {
            let (c, n) = (current as int, count as int);
            if forward {
                if c + 1 == n {
                    assert(n % n == 0) by (nonlinear_arith)
                        requires
                            n > 0,
                    ;
                } else {
                    assert((c + 1) % n == c + 1) by (nonlinear_arith)
                        requires
                            0 <= c + 1 < n,
                    ;
                }
            } else if c == 0 {
                assert((-1int) % n == n - 1) by (nonlinear_arith)
                    requires
                        n > 0,
                ;
            } else {
                assert((c - 1) % n == c - 1) by (nonlinear_arith)
                    requires
                        0 <= c - 1 < n,
                ;
            }
        }
        self.active_index = Some(next);
        true
    }

    pub fn active_match_row(&self) -> (row: Option<usize>)
        ensures
            row == self@.active_row(),
    {
        match self.active_index {
            Some(index) => if index < self.matches.len() {
                Some(self.matches[index].row)
            } else {
                None
            },
            None => None,
        }
    }

    /// Number of matches.
    pub fn match_count(&self) -> (count: usize)
        ensures
            count == self@.matches.len(),
    {
        self.matches.len()
    }

    /// Position of the active match among the matches.
    pub fn active_index(&self) -> (index: Option<usize>)
        ensures
            index == self@.active_index,
    {
        self.active_index
    }

    /// Marks the matches in the visible rows, the first of which is the row
    /// `diff_scroll` of the diff.
    pub fn highlight(&self, lines: Vec<Line>, diff_scroll: usize, theme: Theme) -> (marked: Vec<
        Line,
    >)
        ensures
            marked@.len() == lines@.len(),
            forall|i: int|
                0 <= i < lines@.len() ==> (#[trigger] marked@[i])@ == if self@.query.len() > 0 {
                    highlighted_row(
                        self@,
                        lines@[i]@,
                        least(diff_scroll + i, usize::MAX as int),
                        theme,
                    )
                } else {
                    lines@[i]@
                },
    {
        if self.query.as_str().is_empty() || self.matches.len() == 0 {
            return lines;
        }
        let mut marked: Vec<Line> = Vec::new();
        let mut i: usize = 0;
        while i < lines.len()
            invariant
                i <= lines@.len(),
                marked@.len() == i,
                forall|j: int|
                    0 <= j < i ==> (#[trigger] marked@[j])@ == highlighted_row(
                        self@,
                        lines@[j]@,
                        least(diff_scroll + j, usize::MAX as int),
                        theme,
                    ),
            decreases lines@.len() - i,
        {
            let row: usize = diff_scroll.saturating_add(i);
            let line = self.highlight_line_search_matches(&lines[i], row, theme);
            marked.push(line);
            i = i + 1;
        }
        marked
    }

    fn apply_prompt(&mut self)
        ensures
            final(self)@ == old(self)@.applied(),
            final(self)@.wf(),
    {
        self.prompt_open = false;
        if self.input.as_str().is_empty() {
            self.clear_query();
            return;
        }
        self.query = self.input.clone();
        self.invalidate_matches();
    }

    fn has_match_on_row(&self, row: usize) -> (found: bool)
        ensures
            found == self@.row_has_match(row as int),
    {
        let mut i: usize = 0;
        while i < self.matches.len()
            invariant
                i <= self.matches@.len(),
                forall|m: int| 0 <= m < i ==> (#[trigger] self.matches@[m]).row != row,
            decreases self.matches@.len() - i,
        {
            if self.matches[i].row == row {
                assert(self@.matches[i as int].row == row);
                return true;
            }
            i = i + 1;
        }
        false
    }

    fn highlight_line_search_matches(&self, line: &Line, row: usize, theme: Theme) -> (marked: Line)
        ensures
            marked@ == highlighted_row(self@, line@, row as int, theme),
    {
        if !self.has_match_on_row(row) {
            return line.clone();
        }
        let mut chars = styled_chars(&line.spans);
        let ghost plain = chars@;
        let mut i: usize = 0;
        while i < chars.len()
            invariant
                i <= chars@.len(),
                chars@.len() == plain.len(),
                forall|j: int| i <= j < plain.len() ==> chars@[j] == plain[j],
                forall|j: int|
                    0 <= j < i ==> chars@[j] == (StyledChar {
                        style: match_style(self@, row as int, j, plain[j].style, theme),
                        ..plain[j]
                    }),
            decreases chars@.len() - i,
        {
            let character = chars[i];
            let style = self.search_style_for_char(row, i, character.style, theme);
            chars.set(i, StyledChar { style, ..character });
            i = i + 1;
        }
        assert(chars@ =~= Seq::new(
            plain.len(),
            |i: int|
                StyledChar {
                    style: match_style(self@, row as int, i, plain[i].style, theme),
                    ..plain[i]
                },
        ));
        Line { spans: chars_to_spans(chars.as_slice()), style: line.style }
    }

    fn search_style_for_char(
        &self,
        row: usize,
        index: usize,
        base_style: Style,
        theme: Theme,
    ) -> (style: Style)
        ensures
            style == match_style(self@, row as int, index as int, base_style, theme),
    {
        if let Some(active) = self.active_index {
            if active < self.matches.len() && search_match_contains(
                self.matches[active],
                row,
                index,
            ) {
                return base_style.fg(theme.on_accent).bg(theme.accent).add_modifier(
                    Modifier::Bold,
                );
            }
        }
        let mut i: usize = 0;
        while i < self.matches.len()
            invariant
                i <= self.matches@.len(),
                !self@.active_covers(row as int, index as int),
                forall|m: int|
                    0 <= m < i ==> !covers(
                        #[trigger] self.matches@[m],
                        row as int,
                        index as int,
                    ),
            decreases self.matches@.len() - i,
        {
            if search_match_contains(self.matches[i], row, index) {
                assert(covers(self@.matches[i as int], row as int, index as int));
                return base_style.bg(theme.selected).add_modifier(Modifier::Bold);
            }
            i = i + 1;
        }
        base_style
    }
}

fn search_match_contains(found: SearchMatch, row: usize, index: usize) -> (contains: bool)
    ensures
        contains == covers(found, row as int, index as int),
{
    found.row == row && index >= found.start && index < found.end
}

fn search_chars_match(left: char, right: char) -> (matches: bool)
    ensures
        matches == chars_match(left, right),
{
    lower_ascii(left) == lower_ascii(right)
}

/// The matches of a query in rendered rows.
pub fn diff_search_matches(lines: &Vec<Line>, query: &str) -> (matches: Vec<SearchMatch>)
    ensures
        matches@ == matches_in_rows(row_views(lines@), query@),
{
    let needle = chars_of(query);
    let mut matches: Vec<SearchMatch> = Vec::new();
    let ghost rows = row_views(lines@);
    let mut row: usize = 0;
    assert(rows.take(0) =~= seq![]);
    while row < lines.len()
        invariant
            row <= lines@.len(),
            rows == row_views(lines@),
            needle@ == query@,
            matches@ == matches_in_rows(rows.take(row as int), query@),
        decreases lines@.len() - row,
    {
        let text = chars_of(lines[row].text().as_str());
        push_matches_in_text(&mut matches, &text, &needle, row);
        assert(rows.take(row + 1).drop_last() =~= rows.take(row as int));
        row = row + 1;
    }
    assert(rows.take(rows.len() as int) =~= rows);
    matches
}

fn push_matches_in_text(
    matches: &mut Vec<SearchMatch>,
    text: &Vec<char>,
    needle: &Vec<char>,
    row: usize,
)
    ensures
        final(matches)@ == old(matches)@ + row_matches_from(text@, needle@, row as int, 0),
{
    if needle.len() == 0 {
        assert(matches@ + row_matches_from(text@, needle@, row as int, 0) =~= matches@);
        return;
    }
    let ghost wanted = matches@ + row_matches_from(text@, needle@, row as int, 0);
    let mut start: usize = 0;
    while start < text.len()
        invariant
            start <= text@.len(),
            needle@.len() > 0,
            wanted == matches@ + row_matches_from(text@, needle@, row as int, start as int),
        decreases text@.len() - start,
    {
        let ghost before = matches@;
        let ghost rest = row_matches_from(text@, needle@, row as int, start + 1);
        if needle_at(text, needle, start) {
            let found = SearchMatch { row, start, end: start + needle.len() };
            matches.push(found);
            assert(before + (seq![found] + rest) =~= before.push(found) + rest);
        }
        start = start + 1;
    }
    assert(matches@ + row_matches_from(text@, needle@, row as int, start as int) =~= matches@);
}

fn needle_at(text: &Vec<char>, needle: &Vec<char>, at: usize) -> (found: bool)
    ensures
        found == matches_at(text@, needle@, at as int),
{
    if needle.len() > text.len() || at > text.len() - needle.len() {
        return false;
    }
    let mut i: usize = 0;
    while i < needle.len()
        invariant
            i <= needle@.len(),
            at + needle@.len() <= text@.len() <= usize::MAX,
            forall|j: int| 0 <= j < i ==> chars_match(#[trigger] text@[at + j], needle@[j]),
        decreases needle@.len() - i,
    {
        if !search_chars_match(text[at + i], needle[i]) {
            assert(!chars_match(text@[at + i], needle@[i as int]));
            return false;
        }
        i = i + 1;
    }
    true
}

/// Going to the next match and back, or back and to the next one, leads to the
/// same match.
pub proof fn next_and_previous_match_undo_each_other(search: SearchView, forward: bool)
    requires
        search.wf(),
        search.active_index is Some,
    ensures
        search.advanced(forward).advanced(!forward) == search,
{
    let n = search.matches.len() as int;
    let c = search.active_index->0 as int;
    let step = if forward { 1int } else { -1 };
    let next = (c + step) % n;
    assert(0 <= next < n && (next - step) % n == c) by (nonlinear_arith)
        requires
            0 <= c < n,
            step == 1 || step == -1,
            next == (c + step) % n,
    {
        if c + step == n {
            assert(next == 0);
        } else if c + step == -1 {
            assert(next == n - 1);
        } else {
            assert(next == c + step);
        }
    }
}

/// Going to the next match once for each match leads around to the first one.
pub proof fn matches_are_visited_in_a_circle(search: SearchView, steps: nat)
    requires
        search.wf(),
        search.active_index is Some,
    ensures
        advanced_by(search, steps).active_index == Some(
            ((search.active_index->0 + steps) % search.matches.len() as int) as usize,
        ),
        advanced_by(search, steps).matches == search.matches,
    decreases steps,
{
    let n = search.matches.len() as int;
    let c = search.active_index->0 as int;
    if steps == 0 {
        assert(c % n == c) by (nonlinear_arith)
            requires
                0 <= c < n,
        ;
    } else {
        matches_are_visited_in_a_circle(search, (steps - 1) as nat);
        let at = (c + steps - 1) % n;
        assert(0 <= at < n && (at + 1) % n == (c + steps) % n) by (nonlinear_arith)
            requires
                0 < n,
                at == (c + steps - 1) % n,
        {
            vstd::arithmetic::div_mod::lemma_mod_bound(c + steps - 1, n);
            vstd::arithmetic::div_mod::lemma_add_mod_noop(c + steps - 1, 1, n);
            vstd::arithmetic::div_mod::lemma_add_mod_noop(at, 1, n);
            vstd::arithmetic::div_mod::lemma_mod_twice(c + steps - 1, n);
        }
    }
}

/// The search behind a number of steps to the next match.
pub open spec fn advanced_by(search: SearchView, steps: nat) -> SearchView
    decreases steps,
{
    if steps == 0 {
        search
    } else {
        advanced_by(search, (steps - 1) as nat).advanced(true)
    }
}


proof fn row_matches_are_exact(
    text: Seq<char>,
    query: Seq<char>,
    row: int,
    from: int,
    found: SearchMatch,
)
    requires
        query.len() > 0,
        0 <= from <= text.len() <= usize::MAX,
        0 <= row <= usize::MAX,
    ensures
        row_matches_from(text, query, row, from).contains(found) <==> found.row == row && from
            <= found.start && matches_at(text, query, found.start as int) && found.end
            == found.start + query.len(),
    decreases text.len() - from,
{
    let list = row_matches_from(text, query, row, from);
    if from < text.len() {
        row_matches_are_exact(text, query, row, from + 1, found);
        let rest = row_matches_from(text, query, row, from + 1);
        if matches_at(text, query, from) {
            let first = SearchMatch {
                row: row as usize,
                start: from as usize,
                end: (from + query.len()) as usize,
            };
            assert(list[0] == first);
            if list.contains(found) {
                let i = choose|i: int| 0 <= i < list.len() && list[i] == found;
                if i > 0 {
                    assert(rest[i - 1] == found);
                }
            }
            if rest.contains(found) {
                let i = choose|i: int| 0 <= i < rest.len() && rest[i] == found;
                assert(list[i + 1] == found);
            }
        }
    }
}

/// A search lists a match exactly where the query stands in a row.
pub proof fn search_lists_exactly_the_occurrences(
    rows: Seq<RowView>,
    query: Seq<char>,
    found: SearchMatch,
)
    requires
        query.len() > 0,
        rows.len() <= usize::MAX,
        forall|r: int|
            0 <= r < rows.len() ==> spans_text((#[trigger] rows[r]).spans).len() <= usize::MAX,
    ensures
        matches_in_rows(rows, query).contains(found) <==> found.row < rows.len() && matches_at(
            spans_text(rows[found.row as int].spans),
            query,
            found.start as int,
        ) && found.end == found.start + query.len(),
    decreases rows.len(),
{
    if rows.len() > 0 {
        let front = rows.drop_last();
        let last = rows.len() - 1;
        let text = spans_text(rows.last().spans);
        assert(text.len() <= usize::MAX) by {
            assert(rows[last] == rows.last());
        }
        assert forall|r: int| 0 <= r < front.len() implies spans_text(
            (#[trigger] front[r]).spans,
        ).len() <= usize::MAX by {
            assert(front[r] == rows[r]);
        }
        search_lists_exactly_the_occurrences(front, query, found);
        row_matches_are_exact(text, query, last, 0, found);
        let a = matches_in_rows(front, query);
        let b = row_matches_from(text, query, last, 0);
        let all = matches_in_rows(rows, query);
        if all.contains(found) {
            let i = choose|i: int| 0 <= i < all.len() && all[i] == found;
            if i < a.len() {
                assert(a[i] == found);
            } else {
                assert(b[i - a.len()] == found);
            }
        }
        if a.contains(found) {
            let i = choose|i: int| 0 <= i < a.len() && a[i] == found;
            assert(all[i] == found);
        }
        if b.contains(found) {
            let i = choose|i: int| 0 <= i < b.len() && b[i] == found;
            assert(all[a.len() + i] == found);
        }
    }
}


/// Marking matches changes styles only: every character stays where it is.
pub proof fn marking_matches_keeps_characters(
    search: SearchView,
    line: RowView,
    row: int,
    theme: Theme,
)
    ensures
        values(cells(highlighted_row(search, line, row, theme).spans)) == values(
            cells(line.spans),
        ),
{
    if search.row_has_match(row) {
        let chars = cells(line.spans);
        cells_measured(line.spans);
        let marked = Seq::new(
            chars.len(),
            |i: int|
                StyledChar {
                    style: match_style(search, row, i, chars[i].style, theme),
                    ..chars[i]
                },
        );
        assert forall|i: int| 0 <= i < marked.len() implies #[trigger] marked[i] == cell(
            marked[i].value,
            marked[i].style,
        ) by {
            assert(chars[i] == cell(chars[i].value, chars[i].style));
        }
        joined_keeps_cells(marked);
        assert(values(marked) =~= values(chars));
    }
}

} // verus!
