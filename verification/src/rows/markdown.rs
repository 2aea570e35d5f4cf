//! Rows of rendered Markdown.

use pulldown_cmark::{CodeBlockKind, Event, Options, Parser, Tag, TagEnd};
use vstd::prelude::*;
use vstd::string::*;
use super::diff::append_lines;
use super::text::{wrap_line, wrapped_row};

use crate::line::{
    group_line_views, piece, row, row_views, span_views, styled_row, Line, RowView, Span, SpanView,
};
use crate::scroll_text::{greatest, least};
use crate::style::{color_style, plain_style, Modifier, Style};
use crate::text::{
    cat2, cat3, decimal, decimal_of, pieces, push_spaces, spaces, spaces_of, split, texts,
};
use crate::theme::Theme;

verus! {

/// What a Markdown event is about.
#[derive(Debug, Clone, Copy, PartialEq, Eq, Structural)]
pub enum EventKind {
    Start,
    End,
    Text,
    Code,
    InlineMath,
    DisplayMath,
    Html,
    InlineHtml,
    FootnoteReference,
    SoftBreak,
    HardBreak,
    Rule,
    TaskListMarker,
}

/// What starts or ends at a Markdown event.
#[derive(Debug, Clone, Copy, PartialEq, Eq, Structural)]
pub enum TagKind {
    Paragraph,
    Heading,
    BlockQuote,
    CodeBlock,
    List,
    Item,
    Emphasis,
    Strong,
    Strikethrough,
    Link,
    Image,
    Table,
    TableHead,
    TableRow,
    TableCell,
    /// Anything else, and any event that neither starts nor ends anything.
    Other,
}

/// One event of a parsed Markdown text.
#[derive(Debug)]
pub struct MarkdownEvent {
    pub kind: EventKind,
    pub tag: TagKind,
    /// Its text, the language of a fenced code block or the target of an image.
    pub text: String,
    /// The first number of a list, the level of a heading, one for a checked task
    /// and zero for an open one.
    pub number: Option<u64>,
}

/// What a [`MarkdownEvent`] holds.
pub struct EventView {
    pub kind: EventKind,
    pub tag: TagKind,
    pub text: Seq<char>,
    pub number: Option<u64>,
}

impl View for MarkdownEvent {
    type V = EventView;

    open spec fn view(&self) -> EventView {
        EventView { kind: self.kind, tag: self.tag, text: self.text@, number: self.number }
    }
}

pub open spec fn event_views(events: Seq<MarkdownEvent>) -> Seq<EventView> {
    events.map_values(|event: MarkdownEvent| event@)
}

/// `pulldown_cmark::Event`, one event of a parsed text.
#[verifier::external_type_specification]
#[verifier::external_body]
pub struct ExEvent<'a>(Event<'a>);

/// The events that `pulldown_cmark` finds in a text, with GitHub's block quotes,
/// tables, task lists and strikethrough.
pub uninterp spec fn parsed_markdown(text: Seq<char>) -> Seq<EventView>;

/// An event of the parser and what it holds.
struct ParsedEvent<'a> {
    event: Event<'a>,
    held: Ghost<EventView>,
}

/// `Parser::new_ext`: the events of a text. They depend on the text alone.
#[verifier::external_body]
fn parse_markdown<'a>(text: &'a str) -> (events: Vec<ParsedEvent<'a>>)
    ensures
        events@.map_values(|event: ParsedEvent<'a>| event.held@) == parsed_markdown(text@),
{
    let quotes_and_tables = Options::ENABLE_GFM | Options::ENABLE_TABLES;
    let options = quotes_and_tables | Options::ENABLE_TASKLISTS | Options::ENABLE_STRIKETHROUGH;
    Parser::new_ext(text, options)
        .map(|event| ParsedEvent { event, held: Ghost(arbitrary()) })
        .collect()
}

impl<'a> ParsedEvent<'a> {
    /// `pulldown_cmark::Event`: which variant the event is.
    #[verifier::external_body]
    fn kind(&self) -> (kind: EventKind)
        ensures
            kind == self.held@.kind,
    {
        match &self.event {
            Event::Start(_) => EventKind::Start,
            Event::End(_) => EventKind::End,
            Event::Text(_) => EventKind::Text,
            Event::Code(_) => EventKind::Code,
            Event::InlineMath(_) => EventKind::InlineMath,
            Event::DisplayMath(_) => EventKind::DisplayMath,
            Event::Html(_) => EventKind::Html,
            Event::InlineHtml(_) => EventKind::InlineHtml,
            Event::FootnoteReference(_) => EventKind::FootnoteReference,
            Event::SoftBreak => EventKind::SoftBreak,
            Event::HardBreak => EventKind::HardBreak,
            Event::Rule => EventKind::Rule,
            Event::TaskListMarker(_) => EventKind::TaskListMarker,
        }
    }

    /// `pulldown_cmark::Tag`: what the event starts, for an event that starts
    /// anything.
    #[verifier::external_body]
    fn start_tag(&self) -> (tag: TagKind)
        ensures
            self.held@.kind == EventKind::Start ==> tag == self.held@.tag,
    {
        let Event::Start(tag) = &self.event else { return TagKind::Other };
        match tag {
            Tag::Paragraph => TagKind::Paragraph, Tag::Heading { .. } => TagKind::Heading,
            Tag::BlockQuote(_) => TagKind::BlockQuote, Tag::CodeBlock(_) => TagKind::CodeBlock,
            Tag::List(_) => TagKind::List, Tag::Item => TagKind::Item,
            Tag::Emphasis => TagKind::Emphasis, Tag::Strong => TagKind::Strong,
            Tag::Strikethrough => TagKind::Strikethrough, Tag::Link { .. } => TagKind::Link,
            Tag::Image { .. } => TagKind::Image, Tag::Table(_) => TagKind::Table,
            Tag::TableHead => TagKind::TableHead, Tag::TableRow => TagKind::TableRow,
            Tag::TableCell => TagKind::TableCell, _ => TagKind::Other,
        }
    }

    /// `pulldown_cmark::TagEnd`: what the event ends, for an event that ends
    /// anything.
    #[verifier::external_body]
    fn end_tag(&self) -> (tag: TagKind)
        ensures
            self.held@.kind == EventKind::End ==> tag == self.held@.tag,
    {
        let Event::End(tag) = &self.event else { return TagKind::Other };
        match tag {
            TagEnd::Paragraph => TagKind::Paragraph, TagEnd::Heading(_) => TagKind::Heading,
            TagEnd::BlockQuote(_) => TagKind::BlockQuote, TagEnd::CodeBlock => TagKind::CodeBlock,
            TagEnd::List(_) => TagKind::List, TagEnd::Item => TagKind::Item,
            TagEnd::Emphasis => TagKind::Emphasis, TagEnd::Strong => TagKind::Strong,
            TagEnd::Strikethrough => TagKind::Strikethrough, TagEnd::Link => TagKind::Link,
            TagEnd::Image => TagKind::Image, TagEnd::Table => TagKind::Table,
            TagEnd::TableHead => TagKind::TableHead, TagEnd::TableRow => TagKind::TableRow,
            TagEnd::TableCell => TagKind::TableCell, _ => TagKind::Other,
        }
    }

    /// `pulldown_cmark::CowStr`: the text of the event, the language of a fenced
    /// code block, the target of an image, nothing for any other event.
    #[verifier::external_body]
    fn text(&self) -> (text: String)
        ensures
            text@ == self.held@.text,
    {
        match &self.event {
            Event::Text(text) | Event::Code(text) | Event::InlineMath(text) => text.to_string(),
            Event::DisplayMath(text) | Event::Html(text) => text.to_string(),
            Event::InlineHtml(text) | Event::FootnoteReference(text) => text.to_string(),
            Event::Start(Tag::CodeBlock(CodeBlockKind::Fenced(text))) => text.to_string(),
            Event::Start(Tag::Image { dest_url, .. }) => dest_url.to_string(),
            _ => String::new(),
        }
    }

    /// `pulldown_cmark::Tag`: the first number of a list, the level of a heading,
    /// whether a task is checked, nothing for any other event.
    #[verifier::external_body]
    fn number(&self) -> (number: Option<u64>)
        ensures
            number == self.held@.number,
    {
        match &self.event {
            Event::Start(Tag::List(first)) => *first,
            Event::Start(Tag::Heading { level, .. }) => Some(*level as u64),
            Event::TaskListMarker(checked) => Some(*checked as u64),
            _ => None,
        }
    }
}


impl<'a> ParsedEvent<'a> {
    /// The event in the types of the library.
    fn read(&self) -> (event: MarkdownEvent)
        ensures
            event@.kind == self.held@.kind,
            event@.text == self.held@.text,
            event@.number == self.held@.number,
            event@.tag == (if self.held@.kind is Start || self.held@.kind is End {
                self.held@.tag
            } else {
                TagKind::Other
            }),
    {
        let kind = self.kind();
        let tag = match kind {
            EventKind::Start => self.start_tag(),
            EventKind::End => self.end_tag(),
            _ => TagKind::Other,
        };
        MarkdownEvent { kind, tag, text: self.text(), number: self.number() }
    }
}

/// An event without a tag that it cannot have.
pub open spec fn with_own_tag(event: EventView) -> EventView {
    EventView {
        tag: if event.kind is Start || event.kind is End { event.tag } else { TagKind::Other },
        ..event
    }
}

/// The events of a text.
pub open spec fn markdown_events_of(text: Seq<char>) -> Seq<EventView> {
    parsed_markdown(text).map_values(|event: EventView| with_own_tag(event))
}

fn markdown_events(text: &str) -> (events: Vec<MarkdownEvent>)
    ensures
        event_views(events@) == markdown_events_of(text@),
{
    let parsed = parse_markdown(text);
    let ghost held = parsed_markdown(text@);
    let ghost wanted = markdown_events_of(text@);
    let mut events: Vec<MarkdownEvent> = Vec::new();
    let mut i: usize = 0;
    assert(event_views(events@) =~= wanted.take(0));
    while i < parsed.len()
        invariant
            i <= parsed@.len(),
            held == parsed@.map_values(|event: ParsedEvent<'_>| event.held@),
            wanted == held.map_values(|event: EventView| with_own_tag(event)),
            event_views(events@) == wanted.take(i as int),
        decreases parsed@.len() - i,
    {
        let event = parsed[i].read();
        assert(held[i as int] == parsed@[i as int].held@);
        assert(event@ == wanted[i as int]);
        let ghost before = events@;
        events.push(event);
        assert(event_views(events@) =~= event_views(before).push(event@));
        assert(wanted.take(i + 1) =~= wanted.take(i as int).push(wanted[i as int]));
        i = i + 1;
    }
    assert(wanted.take(wanted.len() as int) =~= wanted);
    events
}

/// How far the rendering of a text is.
pub struct MarkdownView {
    pub lines: Seq<RowView>,
    /// Pieces of the row that is being filled.
    pub current: Seq<SpanView>,
    pub styles: Seq<Style>,
    /// The next number of each open list, `None` for bullets.
    pub lists: Seq<Option<u64>>,
    pub quote_depth: int,
    /// What further rows of a list item start with.
    pub continuation: Option<Seq<char>>,
    pub in_code_block: bool,
    pub first_table_cell: bool,
    pub content_width: int,
    pub theme: Theme,
}

/// Whether a row shows nothing.
pub open spec fn blank(line: RowView) -> bool {
    forall|i: int| 0 <= i < line.spans.len() ==> (#[trigger] line.spans[i]).content.len() == 0
}

/// An empty row.
pub open spec fn empty_row() -> RowView {
    styled_row(""@, plain_style())
}

/// The rows without the blank ones at their end.
pub open spec fn without_blank_end(lines: Seq<RowView>) -> Seq<RowView>
    decreases lines.len(),
{
    if lines.len() > 0 && blank(lines.last()) {
        without_blank_end(lines.drop_last())
    } else {
        lines
    }
}

pub open spec fn bold_style(style: Style) -> Style {
    style.add_modifier(Modifier::Bold)
}

/// `n` copies of a text.
pub open spec fn copies(text: Seq<char>, n: int) -> Seq<char>
    decreases n,
{
    if n <= 0 { seq![] } else { copies(text, n - 1) + text }
}

impl MarkdownView {
    pub open spec fn initial(content_width: int, theme: Theme) -> MarkdownView {
        MarkdownView {
            lines: seq![],
            current: seq![],
            styles: seq![color_style(theme.text, theme.background)],
            lists: seq![],
            quote_depth: 0,
            continuation: None,
            in_code_block: false,
            first_table_cell: true,
            content_width,
            theme,
        }
    }

    pub open spec fn muted(self) -> Style {
        color_style(self.theme.muted, self.theme.background)
    }

    pub open spec fn marker_style(self) -> Style {
        bold_style(color_style(self.theme.syntax.list_marker, self.theme.background))
    }

    pub open spec fn link_style(self) -> Style {
        color_style(self.theme.syntax.link, self.theme.background).add_modifier(
            Modifier::Underlined,
        )
    }

    pub open spec fn code_style(self) -> Style {
        color_style(self.theme.syntax.string, self.theme.background_alt)
    }

    pub open spec fn style(self) -> Style {
        if self.styles.len() > 0 {
            self.styles.last()
        } else {
            color_style(self.theme.text, self.theme.background)
        }
    }

    pub open spec fn with_style(self, style: Style) -> MarkdownView {
        MarkdownView { styles: self.styles.push(style), ..self }
    }

    /// The style before the last one. The first one stays.
    pub open spec fn without_style(self) -> MarkdownView {
        if self.styles.len() > 1 {
            MarkdownView { styles: self.styles.drop_last(), ..self }
        } else {
            self
        }
    }

    /// What a row starts with: a bar for each quote, and the indentation of a list
    /// item.
    pub open spec fn prefix(self) -> Seq<SpanView> {
        let bars = Seq::new(
            if self.quote_depth > 0 { self.quote_depth as nat } else { 0 },
            |i: int| piece("\u{2502} "@, self.muted()),
        );
        match self.continuation {
            Some(indent) => bars.push(piece(indent, self.muted())),
            None => bars,
        }
    }

    pub open spec fn with_prefix(self) -> MarkdownView {
        if self.current.len() == 0 {
            MarkdownView { current: self.prefix(), ..self }
        } else {
            self
        }
    }

    /// The row with one more piece.
    pub open spec fn with_piece(self, text: Seq<char>, style: Style) -> MarkdownView {
        let begun = self.with_prefix();
        MarkdownView { current: begun.current.push(piece(text, style)), ..begun }
    }

    pub open spec fn with_line(self, line: RowView) -> MarkdownView {
        MarkdownView { lines: self.lines + wrapped_row(line, self.content_width), ..self }
    }

    /// The current row among the finished ones.
    pub open spec fn flushed(self) -> MarkdownView {
        if self.current.len() == 0 {
            self
        } else {
            MarkdownView { current: seq![], ..self.with_line(row(self.current)) }
        }
    }

    /// An empty row behind the finished ones, unless there is one.
    pub open spec fn spaced(self) -> MarkdownView {
        if self.lines.len() > 0 && blank(self.lines.last()) {
            self
        } else {
            MarkdownView { lines: self.lines.push(empty_row()), ..self }
        }
    }

    /// The first `n` rows of code.
    pub open spec fn with_code_rows(self, rows: Seq<Seq<char>>, n: int) -> MarkdownView
        decreases n,
    {
        if n <= 0 {
            self
        } else {
            let before = self.with_code_rows(rows, n - 1);
            if rows[n - 1].len() == 0 {
                MarkdownView { lines: before.lines.push(empty_row()), ..before }
            } else {
                before.with_line(styled_row("  "@ + rows[n - 1], self.code_style()))
            }
        }
    }

    pub open spec fn with_code(self, text: Seq<char>) -> MarkdownView {
        let rows = pieces(text, '\n');
        self.with_code_rows(rows, rows.len() as int)
    }

    pub open spec fn with_text(self, text: Seq<char>) -> MarkdownView {
        if self.in_code_block { self.with_code(text) } else { self.with_piece(text, self.style()) }
    }

    /// The marker of the next list item: a number or a bullet, indented by the
    /// depth of its list.
    pub open spec fn item_marker(self) -> Seq<char> {
        let indent = spaces(2 * greatest(self.lists.len() - 1, 0));
        if self.lists.len() > 0 && self.lists.last() is Some {
            indent + decimal(self.lists.last()->0 as nat) + ". "@
        } else {
            indent + "\u{2022} "@
        }
    }

    /// The lists with the last one counted on.
    pub open spec fn counted_on(self) -> MarkdownView {
        if self.lists.len() > 0 && self.lists.last() is Some {
            MarkdownView {
                lists: self.lists.drop_last().push(
                    Some(least(self.lists.last()->0 + 1, u64::MAX as int) as u64),
                ),
                ..self
            }
        } else {
            self
        }
    }

    pub open spec fn with_item(self) -> MarkdownView {
        let marker = self.item_marker();
        let counted = self.counted_on();
        MarkdownView {
            continuation: Some(spaces(marker.len() as int)),
            ..counted.with_piece(marker, self.marker_style())
        }
    }

    pub open spec fn with_heading(self, level: int) -> MarkdownView {
        self.with_piece(
            copies("#"@, level) + " "@,
            bold_style(color_style(self.theme.accent, self.theme.background)),
        ).with_style(bold_style(color_style(self.theme.text, self.theme.background)))
    }

    pub open spec fn with_code_block(self, language: Seq<char>) -> MarkdownView {
        let begun = MarkdownView { in_code_block: true, ..self.flushed() };
        if language.len() == 0 {
            begun
        } else {
            begun.with_line(styled_row("```"@ + language, self.muted()))
        }
    }

    pub open spec fn with_image(self, target: Seq<char>) -> MarkdownView {
        let shown = self.with_piece("[image: "@, self.muted()).with_piece(
            target,
            self.link_style(),
        ).with_piece("] "@, self.muted());
        shown.with_style(shown.style())
    }

    pub open spec fn with_cell(self) -> MarkdownView {
        if self.first_table_cell {
            MarkdownView { first_table_cell: false, ..self }
        } else {
            self.with_piece(" | "@, self.muted())
        }
    }

    pub open spec fn with_rule(self) -> MarkdownView {
        self.flushed().with_line(
            styled_row(
                copies("\u{2500}"@, greatest(self.content_width, 1)),
                color_style(self.theme.border, self.theme.background),
            ),
        ).spaced()
    }

    /// The state behind the start of something.
    pub open spec fn started(self, event: EventView) -> MarkdownView {
        match event.tag {
            TagKind::Paragraph | TagKind::Other => self,
            TagKind::Heading => self.with_heading(
                match event.number {
                    Some(level) => level as int,
                    None => 0,
                },
            ),
            TagKind::BlockQuote => MarkdownView {
                quote_depth: least(self.quote_depth + 1, usize::MAX as int),
                ..self
            },
            TagKind::CodeBlock => self.with_code_block(event.text),
            TagKind::List => MarkdownView { lists: self.lists.push(event.number), ..self },
            TagKind::Item => self.with_item(),
            TagKind::Emphasis => self.with_style(self.style().add_modifier(Modifier::Italic)),
            TagKind::Strong => self.with_style(bold_style(self.style())),
            TagKind::Strikethrough => self.with_style(
                self.style().add_modifier(Modifier::CrossedOut),
            ),
            TagKind::Link => self.with_style(self.link_style()),
            TagKind::Image => self.with_image(event.text),
            TagKind::Table | TagKind::TableHead | TagKind::TableRow => MarkdownView {
                first_table_cell: true,
                ..self
            },
            TagKind::TableCell => self.with_cell(),
        }
    }

    /// The state behind the end of something.
    pub open spec fn ended(self, tag: TagKind) -> MarkdownView {
        match tag {
            TagKind::Paragraph => self.flushed().spaced(),
            TagKind::Heading => self.flushed().spaced().without_style(),
            TagKind::BlockQuote => {
                let closed = MarkdownView {
                    quote_depth: greatest(self.quote_depth - 1, 0),
                    ..self.flushed()
                };
                if closed.quote_depth == 0 { closed.spaced() } else { closed }
            },
            TagKind::CodeBlock => MarkdownView { in_code_block: false, ..self }.spaced(),
            TagKind::List => {
                let closed = MarkdownView {
                    lists: if self.lists.len() > 0 { self.lists.drop_last() } else { self.lists },
                    ..self
                };
                if closed.lists.len() == 0 { closed.spaced() } else { closed }
            },
            TagKind::Item => MarkdownView { continuation: None, ..self.flushed() },
            TagKind::Emphasis | TagKind::Strong | TagKind::Strikethrough | TagKind::Link
            | TagKind::Image => self.without_style(),
            TagKind::TableRow => self.flushed(),
            TagKind::TableCell | TagKind::Table | TagKind::TableHead | TagKind::Other => self,
        }
    }

    pub open spec fn handled(self, event: EventView) -> MarkdownView {
        match event.kind {
            EventKind::Start => self.started(event),
            EventKind::End => self.ended(event.tag),
            EventKind::Text | EventKind::Html | EventKind::InlineHtml => self.with_text(event.text),
            EventKind::Code | EventKind::InlineMath => self.with_piece(
                event.text,
                self.code_style(),
            ),
            EventKind::DisplayMath => self.with_code(event.text),
            EventKind::FootnoteReference => self.with_text("[^"@ + event.text + "]"@),
            EventKind::SoftBreak => self.with_text(" "@),
            EventKind::HardBreak => self.flushed(),
            EventKind::Rule => self.with_rule(),
            EventKind::TaskListMarker => self.with_piece(
                if event.number == Some(1u64) { "[x] "@ } else { "[ ] "@ },
                self.marker_style(),
            ),
        }
    }

    /// The state behind the first `n` events.
    pub open spec fn behind(self, events: Seq<EventView>, n: int) -> MarkdownView
        decreases n,
    {
        if n <= 0 { self } else { self.behind(events, n - 1).handled(events[n - 1]) }
    }

    /// The finished rows.
    pub open spec fn finished(self) -> Seq<RowView> {
        let rows = without_blank_end(self.flushed().lines);
        if rows.len() == 0 {
            seq![styled_row("(empty)"@, self.muted())]
        } else {
            rows
        }
    }
}

/// The rows of some events.
pub open spec fn rendered_events(events: Seq<EventView>, content_width: int, theme: Theme) -> Seq<
    RowView,
> {
    MarkdownView::initial(content_width, theme).behind(events, events.len() as int).finished()
}


#[derive(Debug)]
struct MarkdownRenderer {
    lines: Vec<Line>,
    current: Vec<Span>,
    styles: Vec<Style>,
    lists: Vec<Option<u64>>,
    quote_depth: usize,
    continuation_prefix: Option<String>,
    in_code_block: bool,
    first_table_cell: bool,
    content_width: usize,
    theme: Theme,
}

impl View for MarkdownRenderer {
    type V = MarkdownView;

    closed spec fn view(&self) -> MarkdownView {
        MarkdownView {
            lines: row_views(self.lines@),
            current: span_views(self.current@),
            styles: self.styles@,
            lists: self.lists@,
            quote_depth: self.quote_depth as int,
            continuation: match self.continuation_prefix {
                Some(indent) => Some(indent@),
                None => None,
            },
            in_code_block: self.in_code_block,
            first_table_cell: self.first_table_cell,
            content_width: self.content_width as int,
            theme: self.theme,
        }
    }
}

pub fn repeat_text(text: &str, count: u64) -> (repeated: String)
    ensures
        repeated@ == copies(text@, count as int),
{
    let mut repeated = String::new();
    let mut i: u64 = 0;
    assert(repeated@ =~= copies(text@, 0));
    while i < count
        invariant
            i <= count,
            repeated@ == copies(text@, i as int),
        decreases count - i,
    {
        repeated.append(text);
        i = i + 1;
    }
    repeated
}

fn is_blank_line(line: &Line) -> (is: bool)
    ensures
        is == blank(line@),
{
    let mut i: usize = 0;
    while i < line.spans.len()
        invariant
            i <= line.spans@.len(),
            forall|j: int|
                0 <= j < i ==> (#[trigger] line@.spans[j]).content.len() == 0,
        decreases line.spans@.len() - i,
    {
        assert(line@.spans[i as int] == line.spans@[i as int]@);
        if !line.spans[i].content.as_str().is_empty() {
            return false;
        }
        i = i + 1;
    }
    true
}

impl MarkdownRenderer {
    fn new(content_width: usize, theme: Theme) -> (renderer: Self)
        ensures
            renderer@ == MarkdownView::initial(content_width as int, theme),
    {
        let renderer = MarkdownRenderer {
            lines: Vec::new(),
            current: Vec::new(),
            styles: vec![color_style(theme.text, theme.background)],
            lists: Vec::new(),
            quote_depth: 0,
            continuation_prefix: None,
            in_code_block: false,
            first_table_cell: true,
            content_width,
            theme,
        };
        assert(renderer@.lines =~= seq![]);
        assert(renderer@.current =~= seq![]);
        assert(renderer@.styles =~= seq![color_style(theme.text, theme.background)]);
        assert(renderer@.lists =~= seq![]);
        renderer
    }

    fn handle_event(&mut self, event: &MarkdownEvent)
        ensures
            final(self)@ == old(self)@.handled(event@),
    {
        match event.kind {
            EventKind::Start => self.start_tag(event),
            EventKind::End => self.end_tag(event.tag),
            EventKind::Text | EventKind::Html | EventKind::InlineHtml => self.append_text(
                event.text.as_str(),
            ),
            EventKind::Code | EventKind::InlineMath => {
                let style = self.code_style();
                self.append_styled_text(event.text.as_str(), style)
            },
            EventKind::DisplayMath => self.append_code_text(event.text.as_str()),
            EventKind::FootnoteReference => self.append_text(
                cat3("[^", event.text.as_str(), "]").as_str(),
            ),
            EventKind::SoftBreak => self.append_text(" "),
            EventKind::HardBreak => self.flush_current(),
            EventKind::Rule => self.push_rule(),
            EventKind::TaskListMarker => {
                let checked = match event.number {
                    Some(number) => number == 1,
                    None => false,
                };
                let style = self.list_marker_style();
                self.append_styled_text(if checked { "[x] " } else { "[ ] " }, style);
            },
        }
    }

    fn start_tag(&mut self, event: &MarkdownEvent)
        ensures
            final(self)@ == old(self)@.started(event@),
    {
        match event.tag {
            TagKind::Paragraph | TagKind::Other => {},
            TagKind::Heading => {
                let level: u64 = match event.number {
                    Some(level) => level,
                    None => 0,
                };
                self.start_heading(level);
            },
            TagKind::BlockQuote => {
                self.quote_depth = self.quote_depth.saturating_add(1);
            },
            TagKind::CodeBlock => self.start_code_block(event.text.as_str()),
            TagKind::List => self.lists.push(event.number),
            TagKind::Item => self.start_list_item(),
            TagKind::Emphasis => {
                let style = self.current_style().add_modifier(Modifier::Italic);
                self.styles.push(style);
            },
            TagKind::Strong => {
                let style = self.current_style().add_modifier(Modifier::Bold);
                self.styles.push(style);
            },
            TagKind::Strikethrough => {
                let style = self.current_style().add_modifier(Modifier::CrossedOut);
                self.styles.push(style);
            },
            TagKind::Link => {
                let style = self.link_style();
                self.styles.push(style);
            },
            TagKind::Image => {
                let muted = self.muted_style();
                let link = self.link_style();
                self.append_styled_text("[image: ", muted);
                self.append_styled_text(event.text.as_str(), link);
                self.append_styled_text("] ", muted);
                let style = self.current_style();
                self.styles.push(style);
            },
            TagKind::Table | TagKind::TableHead | TagKind::TableRow => {
                self.first_table_cell = true;
            },
            TagKind::TableCell => self.start_table_cell(),
        }
    }

    fn end_tag(&mut self, tag: TagKind)
        ensures
            final(self)@ == old(self)@.ended(tag),
    {
        match tag {
            TagKind::Paragraph => {
                self.flush_current();
                self.push_blank();
            },
            TagKind::Heading => {
                self.flush_current();
                self.push_blank();
                self.pop_style();
            },
            TagKind::BlockQuote => {
                self.flush_current();
                self.quote_depth = self.quote_depth.saturating_sub(1);
                if self.quote_depth == 0 {
                    self.push_blank();
                }
            },
            TagKind::CodeBlock => {
                self.in_code_block = false;
                self.push_blank();
            },
            TagKind::List => {
                let ghost before = self.lists@;
                let popped = self.lists.pop();
                assert(popped is None ==> self.lists@ =~= before);
                assert(popped is Some ==> self.lists@ =~= before.drop_last());
                if self.lists.len() == 0 {
                    self.push_blank();
                }
            },
            TagKind::Item => {
                self.flush_current();
                self.continuation_prefix = None;
            },
            TagKind::Emphasis | TagKind::Strong | TagKind::Strikethrough | TagKind::Link
            | TagKind::Image => self.pop_style(),
            TagKind::TableRow => self.flush_current(),
            TagKind::TableCell | TagKind::Table | TagKind::TableHead | TagKind::Other => {},
        }
    }

    fn start_heading(&mut self, level: u64)
        ensures
            final(self)@ == old(self)@.with_heading(level as int),
    {
        let marker = cat2(repeat_text("#", level).as_str(), " ");
        let marker_style = color_style(self.theme.accent, self.theme.background).add_modifier(
            Modifier::Bold,
        );
        let text_style = color_style(self.theme.text, self.theme.background).add_modifier(
            Modifier::Bold,
        );
        self.append_styled_text(marker.as_str(), marker_style);
        self.styles.push(text_style);
    }

    fn start_code_block(&mut self, language: &str)
        ensures
            final(self)@ == old(self)@.with_code_block(language@),
    {
        self.flush_current();
        self.in_code_block = true;
        if !language.is_empty() {
            let style = self.muted_style();
            self.push_wrapped_line(Line::styled(cat2("```", language).as_str(), style));
        }
    }

    fn start_list_item(&mut self)
        ensures
            final(self)@ == old(self)@.with_item(),
    {
        let marker = self.next_list_marker();
        let style = self.list_marker_style();
        self.append_styled_text(marker.as_str(), style);
        self.continuation_prefix = Some(spaces_of(marker.as_str().unicode_len()));
    }

    fn start_table_cell(&mut self)
        ensures
            final(self)@ == old(self)@.with_cell(),
    {
        if self.first_table_cell {
            self.first_table_cell = false;
        } else {
            let style = self.muted_style();
            self.append_styled_text(" | ", style);
        }
    }

    fn append_text(&mut self, text: &str)
        ensures
            final(self)@ == old(self)@.with_text(text@),
    {
        if self.in_code_block {
            self.append_code_text(text);
            return;
        }
        let style = self.current_style();
        self.append_styled_text(text, style);
    }

    fn append_code_text(&mut self, text: &str)
        ensures
            final(self)@ == old(self)@.with_code(text@),
    {
        broadcast use group_line_views;

        let rows = split(text, '\n');
        let ghost all = texts(rows@);
        let style = self.code_style();
        let mut i: usize = 0;
        while i < rows.len()
            invariant
                i <= rows@.len(),
                all == texts(rows@),
                style == old(self)@.code_style(),
                self@ == old(self)@.with_code_rows(all, i as int),
            decreases rows@.len() - i,
        {
            assert(all[i as int] == rows@[i as int]@);
            let code = rows[i].as_str();
            if code.is_empty() {
                let ghost before = self@;
                self.lines.push(Line::raw(""));
                assert(self@.lines =~= before.lines.push(empty_row()));
            } else {
                self.push_wrapped_line(Line::styled(cat2("  ", code).as_str(), style));
            }
            i = i + 1;
        }
    }

    fn append_styled_text(&mut self, text: &str, style: Style)
        ensures
            final(self)@ == old(self)@.with_piece(text@, style),
    {
        broadcast use group_line_views;

        self.ensure_line_prefix();
        self.current.push(Span::styled(text, style));
    }

    fn ensure_line_prefix(&mut self)
        ensures
            final(self)@ == old(self)@.with_prefix(),
    {
        broadcast use group_line_views;

        if self.current.len() > 0 {
            return;
        }
        let style = self.muted_style();
        let ghost prefix = old(self)@.prefix();
        let mut i: usize = 0;
        assert(span_views(self.current@) =~= prefix.take(0));
        while i < self.quote_depth
            invariant
                i <= self.quote_depth,
                prefix == old(self)@.prefix(),
                style == old(self)@.muted(),
                self.quote_depth == old(self)@.quote_depth,
                self@ == (MarkdownView { current: prefix.take(i as int), ..old(self)@ }),
            decreases self.quote_depth - i,
        {
            let ghost before = self@;
            self.current.push(Span::styled("\u{2502} ", style));
            assert(self@.current =~= before.current.push(piece("\u{2502} "@, style)));
            i = i + 1;
            assert(prefix.take(i as int) =~= prefix.take(i - 1).push(piece("\u{2502} "@, style)));
        }
        match &self.continuation_prefix {
            Some(indent) => {
                self.current.push(Span::styled(indent.as_str(), style));
            },
            None => {},
        }
        assert(self@.current =~= prefix);
    }

    fn flush_current(&mut self)
        ensures
            final(self)@ == old(self)@.flushed(),
    {
        broadcast use group_line_views;

        if self.current.len() == 0 {
            return;
        }
        let mut spans: Vec<Span> = Vec::new();
        core::mem::swap(&mut spans, &mut self.current);
        self.push_wrapped_line(Line::of(spans));
        assert(self@.current =~= seq![]);
    }

    fn push_rule(&mut self)
        ensures
            final(self)@ == old(self)@.with_rule(),
    {
        self.flush_current();
        let width: usize = if self.content_width > 1 { self.content_width } else { 1 };
        let style = color_style(self.theme.border, self.theme.background);
        self.push_wrapped_line(Line::styled(repeat_text("\u{2500}", width as u64).as_str(), style));
        self.push_blank();
    }

    fn push_blank(&mut self)
        ensures
            final(self)@ == old(self)@.spaced(),
    {
        broadcast use group_line_views;

        let count: usize = self.lines.len();
        if count > 0 {
            assert(self@.lines.last() == self.lines@[count - 1]@);
            if is_blank_line(&self.lines[count - 1]) {
                return;
            }
        }
        self.lines.push(Line::raw(""));
    }

    fn push_wrapped_line(&mut self, line: Line)
        ensures
            final(self)@ == old(self)@.with_line(line@),
    {
        let rows = wrap_line(line, self.content_width);
        append_lines(&mut self.lines, rows);
    }

    fn finish(self) -> (lines: Vec<Line>)
        ensures
            row_views(lines@) == self@.finished(),
    {
        let mut renderer = self;
        renderer.flush_current();
        let ghost all = renderer@.lines;
        let mut lines = renderer.lines;
        while lines.len() > 0 && is_blank_line(&lines[lines.len() - 1])
            invariant
                without_blank_end(all) == without_blank_end(row_views(lines@)),
            decreases lines@.len(),
        {
            let ghost before = row_views(lines@);
            assert(before.last() == lines@[lines@.len() - 1]@);
            let _ = lines.pop();
            assert(row_views(lines@) =~= before.drop_last());
        }
        assert(lines@.len() > 0 ==> row_views(lines@).last() == lines@[lines@.len() - 1]@);
        if lines.len() == 0 {
            lines.push(
                Line::styled(
                    "(empty)",
                    color_style(renderer.theme.muted, renderer.theme.background),
                ),
            );
            assert(row_views(lines@) =~= seq![styled_row("(empty)"@, self@.muted())]);
        }
        lines
    }

    fn next_list_marker(&mut self) -> (marker: String)
        ensures
            marker@ == old(self)@.item_marker(),
            final(self)@ == old(self)@.counted_on(),
    {
        let depth: usize = self.lists.len().saturating_sub(1);
        let mut indent = spaces_of(depth);
        push_spaces(&mut indent, depth);
        assert(indent@ =~= spaces(2 * greatest(self.lists@.len() - 1, 0)));
        let count: usize = self.lists.len();
        if count > 0 {
            if let Some(next) = self.lists[count - 1] {
                let ghost before = self.lists@;
                self.lists.set(count - 1, Some(next.saturating_add(1)));
                assert(self.lists@ =~= before.drop_last().push(
                    Some(least(next + 1, u64::MAX as int) as u64),
                ));
                return cat3(indent.as_str(), decimal_of(next).as_str(), ". ");
            }
        }
        cat2(indent.as_str(), "\u{2022} ")
    }

    fn pop_style(&mut self)
        ensures
            final(self)@ == old(self)@.without_style(),
    {
        if self.styles.len() > 1 {
            let ghost before = self.styles@;
            let _ = self.styles.pop();
            assert(self.styles@ =~= before.drop_last());
        }
    }

    fn current_style(&self) -> (style: Style)
        ensures
            style == self@.style(),
    {
        let count: usize = self.styles.len();
        if count > 0 {
            self.styles[count - 1]
        } else {
            color_style(self.theme.text, self.theme.background)
        }
    }

    fn list_marker_style(&self) -> (style: Style)
        ensures
            style == self@.marker_style(),
    {
        color_style(self.theme.syntax.list_marker, self.theme.background).add_modifier(
            Modifier::Bold,
        )
    }

    fn muted_style(&self) -> (style: Style)
        ensures
            style == self@.muted(),
    {
        color_style(self.theme.muted, self.theme.background)
    }

    fn link_style(&self) -> (style: Style)
        ensures
            style == self@.link_style(),
    {
        color_style(self.theme.syntax.link, self.theme.background).add_modifier(
            Modifier::Underlined,
        )
    }

    fn code_style(&self) -> (style: Style)
        ensures
            style == self@.code_style(),
    {
        color_style(self.theme.syntax.string, self.theme.background_alt)
    }
}

/// Rows of the events of a Markdown text.
pub fn render_markdown_events(
    events: &Vec<MarkdownEvent>,
    content_width: usize,
    theme: Theme,
) -> (lines: Vec<Line>)
    ensures
        row_views(lines@) == rendered_events(event_views(events@), content_width as int, theme),
{
    let ghost all = event_views(events@);
    let ghost start = MarkdownView::initial(content_width as int, theme);
    let mut renderer = MarkdownRenderer::new(content_width, theme);
    let mut i: usize = 0;
    while i < events.len()
        invariant
            i <= events@.len(),
            all == event_views(events@),
            renderer@ == start.behind(all, i as int),
        decreases events@.len() - i,
    {
        assert(all[i as int] == events@[i as int]@);
        renderer.handle_event(&events[i]);
        i = i + 1;
    }
    renderer.finish()
}

/// The rows of a Markdown text.
pub open spec fn markdown_rows(markdown: Seq<char>, content_width: int, theme: Theme) -> Seq<
    RowView,
> {
    if markdown.len() == 0 {
        wrapped_row(
            styled_row("(empty)"@, color_style(theme.muted, theme.background)),
            content_width,
        )
    } else {
        rendered_events(markdown_events_of(markdown), content_width, theme)
    }
}

pub fn markdown_lines(markdown: &str, content_width: usize, theme: Theme) -> (lines: Vec<Line>)
    ensures
        row_views(lines@) == markdown_rows(markdown@, content_width as int, theme),
{
    if markdown.is_empty() {
        return wrap_line(
            Line::styled("(empty)", color_style(theme.muted, theme.background)),
            content_width,
        );
    }
    render_markdown_events(&markdown_events(markdown), content_width, theme)
}

} // verus!
