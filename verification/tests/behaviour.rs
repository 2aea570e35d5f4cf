use chunk::input::{KeyCode, KeyEvent, KeyModifiers, Rect};
use chunk::line::{Line, Span};
use chunk::model::{
    DiffFile, DiffHunk, DiffLine, DiffLineKind, FileStage, FileStatus, SourceSnapshot,
};
use chunk::path_set::PathSet;
use chunk::rows::intraline::{intraline_pair_ranges, intraline_tokens};
use chunk::rows::sidebar::{visible_sidebar_scroll, SidebarRowTarget};
use chunk::rows::status::{live_status_lines, search_status_lines};
use chunk::rows::text::wrap_styled_spans;
use chunk::rows::tree::{sidebar_entries, SidebarEntry};
use chunk::search::{diff_search_matches, Search, SearchMatch};
use chunk::selection::TextSelection;
use chunk::style::{plain_style, Color};
use chunk::theme::Theme;
use chunk::viewport::DiffScrollbar;

fn file(path: &str) -> DiffFile {
    DiffFile {
        id: path.to_string(),
        old_path: path.to_string(),
        path: path.to_string(),
        old_source: SourceSnapshot::Unloaded,
        new_source: SourceSnapshot::Unloaded,
        status: FileStatus::Modified,
        stage: FileStage::Unstaged,
        additions: 0,
        deletions: 0,
        hunks: vec![DiffHunk {
            header: "@@ -1 +1 @@".to_string(),
            old_start: 1,
            old_lines: 1,
            new_start: 1,
            new_lines: 1,
            stage: FileStage::Unstaged,
            lines: vec![DiffLine {
                kind: DiffLineKind::Context,
                old_line: Some(1),
                new_line: Some(1),
                content: "line".to_string(),
            }],
        }],
        binary: false,
    }
}

fn search_for(query: &str, lines: &Vec<Line>) -> Search {
    let mut search = Search::default();
    search.open_prompt();
    for value in query.chars() {
        search.handle_prompt_key(KeyEvent::new(KeyCode::Char(value), KeyModifiers::none()));
    }
    search.handle_prompt_key(KeyEvent::new(KeyCode::Enter, KeyModifiers::none()));
    assert!(search.refresh_matches("0", lines));
    search
}

#[test]
fn search_lists_every_occurrence_in_order() {
    let lines = vec![Line::raw("aXbX"), Line::raw("none"), Line::raw("X")];

    assert_eq!(
        diff_search_matches(&lines, "X"),
        [
            SearchMatch { row: 0, start: 1, end: 2 },
            SearchMatch { row: 0, start: 3, end: 4 },
            SearchMatch { row: 2, start: 0, end: 1 },
        ]
    );
    assert_eq!(diff_search_matches(&lines, "x").len(), 3);
    assert!(diff_search_matches(&lines, "y").is_empty());
}

#[test]
fn matches_are_visited_in_both_directions() {
    let lines = vec![Line::raw("aXbX"), Line::raw("X")];
    let mut search = search_for("X", &lines);

    assert_eq!(search.active_index(), Some(0));
    search.advance_match(true);
    search.advance_match(false);
    assert_eq!(search.active_index(), Some(0));
    search.advance_match(false);
    assert_eq!(search.active_index(), Some(2));
    for _ in 0..3 {
        search.advance_match(true);
    }
    assert_eq!(search.active_index(), Some(2));
}

#[test]
fn marking_matches_keeps_the_text() {
    let theme = Theme::github_dark();
    let lines = vec![Line::raw("one two one"), Line::raw("\u{4e16}one")];
    let search = search_for("one", &lines);
    let marked = search.highlight(lines, 0, theme);

    assert_eq!(marked[0].text(), "one two one");
    assert_eq!(marked[1].text(), "\u{4e16}one");
    let active: Vec<&str> = marked[0]
        .spans
        .iter()
        .filter(|span| span.style.bg == Some(theme.accent))
        .map(|span| span.content.as_str())
        .collect();
    assert_eq!(active, ["one"]);
}

#[test]
fn selection_is_the_same_in_both_directions() {
    let theme = Theme::github_dark();
    let area = Rect::new(0, 0, 10, 1);
    let selected = |from: u16, to: u16| {
        let mut selection = TextSelection::default();
        let _ = selection.decorate_visible_lines(area, vec![Line::raw("abcdef")], 0, 1, theme);
        assert!(selection.begin_drag(from, 0));
        assert!(selection.finish_drag(to, 0));
        let marked =
            selection.decorate_visible_lines(area, vec![Line::raw("abcdef")], 0, 1, theme);
        assert_eq!(marked[0].text(), "abcdef");
        selection.take_clipboard_request()
    };

    assert_eq!(selected(1, 4).as_deref(), Some("bcde"));
    assert_eq!(selected(4, 1).as_deref(), Some("bcde"));
}

#[test]
fn wide_characters_take_two_columns() {
    let red = plain_style().fg(Color::Red);
    let rows = wrap_styled_spans(&vec![Span::styled("a\u{4e16}b\u{754c}c", red)], 3);
    let texts: Vec<String> = rows
        .into_iter()
        .map(|spans| Line::of(spans).text())
        .collect();

    assert_eq!(texts, ["a\u{4e16}", "b\u{754c}", "c"]);
    assert_eq!(texts.concat(), "a\u{4e16}b\u{754c}c");
}

#[test]
fn tokens_make_up_the_text() {
    let text = "let f\u{e9}e = a_1+ 2;";
    let tokens = intraline_tokens(text);
    let texts: Vec<&str> = tokens.iter().map(|token| token.text.as_str()).collect();

    assert_eq!(texts.concat(), text);
    assert!(texts.contains(&"f\u{e9}e"));
    assert!(texts.contains(&"a_1"));
}

#[test]
fn unchanged_tokens_are_not_marked() {
    let ranges = intraline_pair_ranges("call(one, two)", "call(one, three)").unwrap();

    assert_eq!(ranges.removed.len(), 1);
    assert_eq!((ranges.removed[0].start, ranges.removed[0].end), (10, 13));
    assert_eq!((ranges.added[0].start, ranges.added[0].end), (10, 15));
}

#[test]
fn tree_lists_every_file_once_with_sorted_folders() {
    let files = vec![file("z.rs"), file("b/x.rs"), file("a/y.rs"), file("a/c/w.rs")];
    let entries = sidebar_entries(&files, &PathSet::new());
    let shown: Vec<String> = entries
        .iter()
        .map(|entry| match entry {
            SidebarEntry::Folder { path, .. } => path.clone(),
            SidebarEntry::File { index, .. } => files[*index].path.clone(),
        })
        .collect();

    assert_eq!(
        shown,
        ["a", "a/c", "a/c/w.rs", "a/y.rs", "b", "b/x.rs", "z.rs"]
    );
    let mut collapsed = PathSet::new();
    assert!(collapsed.insert("a"));
    assert!(!collapsed.insert("a"));
    assert_eq!(sidebar_entries(&files, &collapsed).len(), 4);
    assert!(collapsed.remove("a"));
    assert_eq!(sidebar_entries(&files, &collapsed).len(), 7);
}

#[test]
fn marked_entry_is_scrolled_into_view() {
    let files: Vec<DiffFile> = (0..9).map(|i| file(&format!("f{i}.rs"))).collect();
    let entries = sidebar_entries(&files, &PathSet::new());
    let counts = vec![1; entries.len()];

    for index in 0..9 {
        let target = SidebarRowTarget::File(index);
        let scroll = visible_sidebar_scroll(&entries, &counts, 4, &target, 3);
        assert!(scroll <= index && index < scroll + 3);
    }
}

#[test]
fn thumb_reaches_both_ends_of_its_track() {
    let bar = |scroll| {
        DiffScrollbar::new(Rect::new(5, 2, 1, 10), 0, "f".to_string(), 50, 10, scroll)
    };

    assert_eq!(bar(0).thumb().start, 0);
    let bottom = bar(40).thumb();
    assert_eq!(bottom.start + bottom.len, 10);
    let drag = bar(0).drag_at(5, 2).unwrap();
    assert_eq!(bar(0).scroll_for_drag(0, drag), 0);
    assert_eq!(bar(0).scroll_for_drag(100, drag), 40);
    assert!(bar(0).drag_at(6, 2).is_none());
}

#[test]
fn status_rows_quote_the_query() {
    let theme = Theme::github_dark();
    let lines = vec![Line::raw("say \"hi\"")];
    let search = search_for("\"hi\"", &lines);

    let rows = search_status_lines(search.status(), 80, theme);
    assert_eq!(
        rows[0].text(),
        "Search: \"\\\"hi\\\"\"  1/1  [n/N] next/prev  [Esc] clear"
    );
    let rows = live_status_lines(Some("bad"), Some("good"), 80, theme);
    assert_eq!(rows[0].text(), "! bad");
    let rows = live_status_lines(None, Some("good"), 80, theme);
    assert_eq!(rows[0].text(), "ok good");
}
