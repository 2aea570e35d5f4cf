//! Rendered rows of styled text.

use vstd::prelude::*;
use vstd::string::*;

use crate::style::{plain_style, Style};
use crate::text::{lines, lines_of, texts};

verus! {

/// A piece of text in one style.
#[derive(Debug, PartialEq, Eq)]
pub struct Span {
    pub content: String,
    pub style: Style,
}

/// A row of styled text, with the style of the row itself.
#[derive(Debug, PartialEq, Eq)]
pub struct Line {
    pub spans: Vec<Span>,
    pub style: Style,
}

/// What a [`Span`] holds.
pub struct SpanView {
    pub content: Seq<char>,
    pub style: Style,
}

/// What a [`Line`] holds.
pub struct RowView {
    pub spans: Seq<SpanView>,
    pub style: Style,
}

impl View for Span {
    type V = SpanView;

    open spec fn view(&self) -> SpanView {
        SpanView { content: self.content@, style: self.style }
    }
}

pub open spec fn span_views(spans: Seq<Span>) -> Seq<SpanView> {
    spans.map_values(|span: Span| span@)
}

impl View for Line {
    type V = RowView;

    open spec fn view(&self) -> RowView {
        RowView { spans: span_views(self.spans@), style: self.style }
    }
}

pub open spec fn row_views(lines: Seq<Line>) -> Seq<RowView> {
    lines.map_values(|line: Line| line@)
}

pub broadcast proof fn span_views_push(spans: Seq<Span>, span: Span)
    ensures
        #[trigger] span_views(spans.push(span)) == span_views(spans).push(span@),
{
    assert(span_views(spans.push(span)) =~= span_views(spans).push(span@));
}

pub broadcast proof fn row_views_push(lines: Seq<Line>, line: Line)
    ensures
        #[trigger] row_views(lines.push(line)) == row_views(lines).push(line@),
{
    assert(row_views(lines.push(line)) =~= row_views(lines).push(line@));
}

pub broadcast proof fn span_views_append(a: Seq<Span>, b: Seq<Span>)
    ensures
        #[trigger] span_views(a + b) == span_views(a) + span_views(b),
{
    assert(span_views(a + b) =~= span_views(a) + span_views(b));
}

pub broadcast proof fn row_views_append(a: Seq<Line>, b: Seq<Line>)
    ensures
        #[trigger] row_views(a + b) == row_views(a) + row_views(b),
{
    assert(row_views(a + b) =~= row_views(a) + row_views(b));
}

pub broadcast proof fn views_empty()
    ensures
        #[trigger] span_views(Seq::<Span>::empty()) == Seq::<SpanView>::empty(),
        #[trigger] row_views(Seq::<Line>::empty()) == Seq::<RowView>::empty(),
{
    assert(span_views(Seq::<Span>::empty()) =~= Seq::<SpanView>::empty());
    assert(row_views(Seq::<Line>::empty()) =~= Seq::<RowView>::empty());
}

pub broadcast group group_line_views {
    span_views_push,
    row_views_push,
    span_views_append,
    row_views_append,
    views_empty,
}

/// A styled piece of text.
pub open spec fn piece(content: Seq<char>, style: Style) -> SpanView {
    SpanView { content, style }
}

/// A row of the given pieces.
pub open spec fn row(spans: Seq<SpanView>) -> RowView {
    RowView { spans, style: plain_style() }
}

/// The unstyled pieces of a text: one for each of its lines.
pub open spec fn raw_pieces(text: Seq<char>) -> Seq<SpanView> {
    lines_of(text).map_values(|line: Seq<char>| piece(line, plain_style()))
}

/// A row that holds a text in the row's own style.
pub open spec fn styled_row(text: Seq<char>, style: Style) -> RowView {
    RowView { spans: raw_pieces(text), style }
}

/// The text of a row.
pub open spec fn spans_text(spans: Seq<SpanView>) -> Seq<char>
    decreases spans.len(),
{
    if spans.len() == 0 {
        seq![]
    } else {
        spans_text(spans.drop_last()) + spans.last().content
    }
}

impl Clone for Span {
    fn clone(&self) -> (copy: Self)
        ensures
            copy@ == self@,
    {
        Span { content: self.content.clone(), style: self.style }
    }
}

impl Clone for Line {
    fn clone(&self) -> (copy: Self)
        ensures
            copy@ == self@,
    {
        let copy = Line { spans: self.spans.clone(), style: self.style };
        assert(span_views(copy.spans@) =~= span_views(self.spans@));
        copy
    }
}

impl Span {
    pub fn styled(content: &str, style: Style) -> (span: Span)
        ensures
            span@ == piece(content@, style),
    {
        Span { content: content.to_owned(), style }
    }

    pub fn raw(content: &str) -> (span: Span)
        ensures
            span@ == piece(content@, plain_style()),
    {
        Span { content: content.to_owned(), style: plain_style() }
    }
}

impl Line {
    /// A row of the given pieces.
    pub fn of(spans: Vec<Span>) -> (line: Line)
        ensures
            line@ == row(span_views(spans@)),
    {
        Line { spans, style: plain_style() }
    }

    /// A row that holds `content` in the style of the row.
    pub fn styled(content: &str, style: Style) -> (line: Line)
        ensures
            line@ == styled_row(content@, style),
    {
        broadcast use group_line_views;

        let parts = lines(content);
        let mut spans: Vec<Span> = Vec::new();
        let mut i: usize = 0;
        let ghost all = lines_of(content@);
        let ghost wanted = raw_pieces(content@);
        while i < parts.len()
            invariant
                i <= parts@.len(),
                texts(parts@) == all,
                wanted.len() == all.len(),
                forall|j: int| 0 <= j < all.len() ==> #[trigger] wanted[j] == piece(
                    all[j],
                    plain_style(),
                ),
                span_views(spans@) == wanted.take(i as int),
            decreases parts@.len() - i,
        {
            assert(all[i as int] == parts@[i as int]@);
            assert(wanted.take(i + 1) =~= wanted.take(i as int).push(wanted[i as int]));
            spans.push(Span::raw(parts[i].as_str()));
            i = i + 1;
        }
        assert(wanted.take(wanted.len() as int) =~= wanted);
        Line { spans, style }
    }

    /// An unstyled row that holds `content`.
    pub fn raw(content: &str) -> (line: Line)
        ensures
            line@ == styled_row(content@, plain_style()),
    {
        Line::styled(content, plain_style())
    }

    /// The text of the row.
    pub fn text(&self) -> (text: String)
        ensures
            text@ == spans_text(self@.spans),
    {
        let mut text = String::new();
        let mut i: usize = 0;
        let ghost spans = self@.spans;
        assert(spans.take(0) =~= seq![]);
        while i < self.spans.len()
            invariant
                i <= self.spans@.len(),
                spans == span_views(self.spans@),
                text@ == spans_text(spans.take(i as int)),
            decreases self.spans@.len() - i,
        {
            assert(spans.take(i + 1).drop_last() =~= spans.take(i as int));
            text.append(self.spans[i].content.as_str());
            i = i + 1;
        }
        assert(spans.take(spans.len() as int) =~= spans);
        text
    }
}

} // verus!
