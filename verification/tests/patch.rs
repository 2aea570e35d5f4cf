use chunk::git::{matching_hunk_patch, toggle_source, HunkPatchSource};
use chunk::model::{FileStatus, SourceSnapshot};
use chunk::patch::{
    file_patch, parse_line_range, parse_unified_diff, selected_hunk_patch, LineRange,
};
use chunk::quoting::{path_without_quotes, quote_path, unquote};

#[test]
fn parses_modified_file() {
    let changeset = parse_unified_diff(
        "diff --git a/src/main.rs b/src/main.rs\n\
         index 1111111..2222222 100644\n\
         --- a/src/main.rs\n\
         +++ b/src/main.rs\n\
         @@ -1,2 +1,2 @@\n\
          fn main() {\n\
         -    println!(\"old\");\n\
         +    println!(\"new\");\n\
          }\n",
    );

    assert_eq!(changeset.files.len(), 1);
    let file = &changeset.files[0];
    assert_eq!(file.path, "src/main.rs");
    assert_eq!(file.status, FileStatus::Modified);
    assert_eq!(file.old_source, SourceSnapshot::Unloaded);
    assert_eq!(file.new_source, SourceSnapshot::Unloaded);
    assert_eq!(file.additions, 1);
    assert_eq!(file.deletions, 1);
    assert_eq!(file.hunks[0].lines.len(), 4);
}

#[test]
fn parses_renamed_file() {
    let changeset = parse_unified_diff(
        "diff --git a/old.rs b/new.rs\n\
         similarity index 88%\n\
         rename from old.rs\n\
         rename to new.rs\n\
         --- a/old.rs\n\
         +++ b/new.rs\n\
         @@ -1 +1 @@\n\
         -old\n\
         +new\n",
    );

    let file = &changeset.files[0];
    assert_eq!(file.old_path, "old.rs");
    assert_eq!(file.path, "new.rs");
    assert_eq!(file.status, FileStatus::Renamed);
}

const TABBED: &str = "diff --git \"a/tab\\tfile.txt\" \"b/tab\\tfile.txt\"\n\
    index 3367afd..3e75765 100644\n\
    --- \"a/tab\\tfile.txt\"\n\
    +++ \"b/tab\\tfile.txt\"\n\
    @@ -1 +1 @@\n\
    -old\n\
    +new\n";

#[test]
fn toggle_hunk_staging_handles_git_quoted_paths() {
    let path = "tab\tfile.txt";
    let changeset = parse_unified_diff(TABBED);
    let file = changeset
        .files
        .iter()
        .find(|file| file.display_path() == path)
        .expect("changed tabbed path should be parsed");

    assert_eq!(toggle_source(file, 0), Ok(HunkPatchSource::Unstaged));
    let unstaged = parse_unified_diff(TABBED);
    let patch = matching_hunk_patch(file, &file.hunks[0], &unstaged, HunkPatchSource::Unstaged)
        .unwrap();
    assert!(patch.starts_with(
        "diff --git \"a/tab\\tfile.txt\" \"b/tab\\tfile.txt\"\n--- \"a/tab\\tfile.txt\"\n+++ \"b/tab\\tfile.txt\"\n"
    ));
    assert!(patch.contains("+new\n"));
}

#[test]
fn quoted_header_alone_names_the_real_path() {
    let changeset = parse_unified_diff("diff --git \"a/tab\\tfile.txt\" \"b/tab\\tfile.txt\"");

    assert_eq!(changeset.files.len(), 1);
    assert_eq!(changeset.files[0].display_path(), "tab\tfile.txt");
}

#[test]
fn quoted_words_are_read_whole() {
    let changeset = parse_unified_diff(
        "diff --git \"a/one \\\"two\\\".txt\" \"b/caf\\303\\251 bar.txt\"\n",
    );

    assert_eq!(changeset.files[0].old_path, "one \"two\".txt");
    assert_eq!(changeset.files[0].path, "caf\u{e9} bar.txt");
}

#[test]
fn quoted_renames_and_copies_are_unquoted() {
    let changeset = parse_unified_diff(
        "diff --git a/x b/y\nrename from \"a\\tb\"\nrename to plain name\n\
         diff --git a/x b/y\ncopy from \"back\\\\slash\"\ncopy to \"new\\nline\"\n",
    );

    assert_eq!(changeset.files[0].old_path, "a\tb");
    assert_eq!(changeset.files[0].path, "plain name");
    assert_eq!(changeset.files[0].status, FileStatus::Renamed);
    assert_eq!(changeset.files[1].old_path, "back\\slash");
    assert_eq!(changeset.files[1].path, "new\nline");
    assert_eq!(changeset.files[1].status, FileStatus::Copied);
}

#[test]
fn paths_are_quoted_as_git_quotes_them() {
    assert_eq!(quote_path("a/plain name.txt"), "a/plain name.txt");
    assert_eq!(quote_path("caf\u{e9}"), "\"caf\\303\\251\"");
    assert_eq!(
        quote_path("\u{7}\u{8}\t\n\u{b}\u{c}\r\"\\\u{1}\u{7f}"),
        "\"\\a\\b\\t\\n\\v\\f\\r\\\"\\\\\\001\\177\""
    );
    for path in ["plain", "tab\there", "caf\u{e9}", "\"", "\\", "\u{4e16}\u{754c} x", ""] {
        assert_eq!(path_without_quotes(&quote_path(path)), path);
    }
}

#[test]
fn broken_quotes_are_no_quoted_path() {
    assert_eq!(unquote("\"open"), None);
    assert_eq!(unquote("\"bad \\q\""), None);
    assert_eq!(unquote("\"bad \\777\""), None);
    assert_eq!(unquote("\"closed\" early\""), None);
    assert_eq!(unquote("plain"), None);
    assert_eq!(unquote("\"\\377\"").as_deref(), Some("\u{fffd}"));
    let changeset = parse_unified_diff("diff --git \"a/bad\\q\" b/x\n");
    assert_eq!(changeset.files[0].old_path, "bad\\q");
}

#[test]
fn written_patches_are_read_back() {
    for path in ["tab\tfile.txt", "caf\u{e9} x.txt", "plain.txt"] {
        let mut changeset = parse_unified_diff(TABBED);
        let file = &mut changeset.files[0];
        file.old_path = path.to_string();
        file.path = path.to_string();
        let again = parse_unified_diff(&file_patch(file).unwrap());
        assert_eq!(again.files[0], *file);
        file.status = FileStatus::Renamed;
        file.old_path = format!("old {path}");
        let again = parse_unified_diff(&selected_hunk_patch(file, 0).unwrap());
        assert_eq!(again.files[0], *file);
    }
}

#[test]
fn patches_behind_each_other_are_parsed_one_by_one() {
    let second = "diff --git a/two b/two\nBinary files differ\n";
    let both = parse_unified_diff(&format!("{TABBED}{second}"));
    let mut other = parse_unified_diff(second).files.remove(0);
    assert_eq!(other.id, "0");
    other.id = "1".to_string();

    assert_eq!(both.files, [parse_unified_diff(TABBED).files.remove(0), other]);
}

#[test]
fn line_ranges_are_read_as_written() {
    assert_eq!(
        parse_line_range("-12,3", '-'),
        Some(LineRange { start: 12, lines: 3 })
    );
    assert_eq!(
        parse_line_range("+4294967295", '+'),
        Some(LineRange { start: u32::MAX, lines: 1 })
    );
    assert_eq!(parse_line_range("+1", '-'), None);
    assert_eq!(parse_line_range("", '-'), None);
    assert_eq!(parse_line_range("-4294967296", '-'), None);
    assert_eq!(parse_line_range("-1,x", '-'), None);
}

#[test]
fn quotes_side_by_side_are_one_word() {
    assert!(parse_unified_diff("diff --git \"\"\"\"\n").files.is_empty());
    assert!(parse_unified_diff("diff --git \"a/x\"\"b/x\"\n").files.is_empty());
    assert!(parse_unified_diff("diff --git a/x\n").files.is_empty());
    let changeset = parse_unified_diff("diff --git \"a/x\"y b/z\n");
    assert_eq!(changeset.files[0].old_path, "x\"y");
    assert_eq!(changeset.files[0].path, "z");
}

#[test]
fn one_quoted_word_with_a_blank_is_two_words() {
    let header = "diff --git \"a b\"\n";
    let alone = parse_unified_diff(header);
    assert_eq!(alone.files.len(), 1);
    assert_eq!(alone.files[0].old_path, "a");
    assert_eq!(alone.files[0].path, "b");

    let behind = parse_unified_diff(&format!("{TABBED}{header}"));
    assert_eq!(behind.files.len(), 2);
    assert_eq!(behind.files[0], parse_unified_diff(TABBED).files[0]);
    assert_eq!(behind.files[1].id, "1");
}
