//! What the files panel and the search tell.

use vstd::prelude::*;
use vstd::string::*;

use crate::line::RowView;
use crate::model::{FileStage, FileStatus, FileView};
use crate::rows::file_summary::{stat_pieces, FileKind};
use crate::rows::sidebar::{
    below_folder, entry_row, file_entry_row, folder_entry_row, stage_below, stage_of_folder,
    TargetView,
};
use crate::rows::text::{
    cell, cells, cells_measured, joined, joined_keeps_cells, measured, StyledChar,
};
use crate::rows::tree::EntryView;
use crate::search::{
    chars_match, covers, highlighted_row, match_style, matches_at, SearchStatusView, SearchView,
};
use crate::style::{Color, Style};
use crate::text::{ascii_lower, ascii_lower_all, base_name, decimal, extension_of};
use crate::theme::Theme;

verus! {

/// Whether some file below a folder has a stage.
pub open spec fn stage_among(
    files: Seq<FileView>,
    folder: Seq<char>,
    n: int,
    stage: FileStage,
) -> bool {
    exists|i: int|
        0 <= i < n && below_folder((#[trigger] files[i]).shown_path(), folder) && files[i].stage
            == stage
}

proof fn stage_of_start(files: Seq<FileView>, folder: Seq<char>, n: int)
    requires
        0 <= n <= files.len(),
    ensures
        stage_below(files, folder, n) is None <==> forall|i: int|
            0 <= i < n ==> !below_folder((#[trigger] files[i]).shown_path(), folder),
        stage_below(files, folder, n) is Some ==> {
            let staged = stage_among(files, folder, n, FileStage::Staged);
            let unstaged = stage_among(files, folder, n, FileStage::Unstaged);
            let mixed = stage_among(files, folder, n, FileStage::Mixed);
            stage_below(files, folder, n)->0 == if mixed || (staged && unstaged) {
                FileStage::Mixed
            } else if staged {
                FileStage::Staged
            } else {
                FileStage::Unstaged
            }
        },
    decreases n,
{
    if n > 0 {
        stage_of_start(files, folder, n - 1);
        let last = files[n - 1];
        let before = stage_below(files, folder, n - 1);
        if below_folder(last.shown_path(), folder) {
            assert(stage_among(files, folder, n, last.stage));
            if before is Some {
                assert(stage_among(files, folder, n - 1, FileStage::Staged) ==> stage_among(
                    files,
                    folder,
                    n,
                    FileStage::Staged,
                ));
                assert(stage_among(files, folder, n - 1, FileStage::Unstaged) ==> stage_among(
                    files,
                    folder,
                    n,
                    FileStage::Unstaged,
                ));
                assert(stage_among(files, folder, n - 1, FileStage::Mixed) ==> stage_among(
                    files,
                    folder,
                    n,
                    FileStage::Mixed,
                ));
            } else {
                assert forall|i: int|
                    0 <= i < n && below_folder(
                        (#[trigger] files[i]).shown_path(),
                        folder,
                    ) implies files[i].stage == last.stage by {}
            }
        } else {
            assert(forall|i: int|
                0 <= i < n && below_folder((#[trigger] files[i]).shown_path(), folder) ==> i < n
                    - 1);
        }
    }
}

/// A folder is staged where every file below it is, mixed where some is mixed or where both
/// staged and unstaged files lie below it, and unstaged otherwise.
pub proof fn folder_stage_is_that_of_its_files(files: Seq<FileView>, folder: Seq<char>)
    ensures
        ({
            let n = files.len() as int;
            let staged = stage_among(files, folder, n, FileStage::Staged);
            let unstaged = stage_among(files, folder, n, FileStage::Unstaged);
            let mixed = stage_among(files, folder, n, FileStage::Mixed);
            &&& stage_of_folder(files, folder) == FileStage::Mixed <==> mixed || (staged
                && unstaged)
            &&& stage_of_folder(files, folder) == FileStage::Staged <==> staged && !unstaged
                && !mixed
        }),
{
    stage_of_start(files, folder, files.len() as int);
}

/// The row of a file shows a check mark exactly where the file was reviewed, and stands on
/// the color of selected rows exactly where it is selected. It ends with the statistics of
/// the file.
pub proof fn file_row_tells_the_file(
    file: FileView,
    selected: bool,
    width: int,
    reviewed: bool,
    depth: int,
    theme: Theme,
)
    ensures
        ({
            let shown = file_entry_row(file, selected, width, reviewed, depth, theme);
            let background = if selected { theme.selected } else { theme.background };
            &&& shown.spans.len() >= 5
            &&& reviewed ==> shown.spans[1].content == "\u{f00c}"@
            &&& !reviewed ==> shown.spans[1].content == FileKind::of_path(
                file.shown_path(),
            ).glyph() && shown.spans[1].style.fg == Some(
                match file.status {
                    FileStatus::Added => theme.file_new,
                    FileStatus::Deleted => theme.file_deleted,
                    FileStatus::Renamed | FileStatus::Copied => theme.file_renamed,
                    FileStatus::Modified => theme.file_modified,
                },
            )
            &&& forall|i: int|
                0 <= i < 5 ==> (#[trigger] shown.spans[i]).style.bg == Some(background)
            &&& shown.spans.skip(5) == stat_pieces(file, background, theme)
            &&& !reviewed && file.stage == FileStage::Staged ==> shown.spans[3].style.fg == Some(
                theme.added,
            )
            &&& !reviewed && file.stage == FileStage::Unstaged ==> shown.spans[3].style.fg == Some(
                theme.text,
            )
            &&& reviewed ==> shown.spans[3].style.fg == Some(theme.muted)
        }),
{
    let shown = file_entry_row(file, selected, width, reviewed, depth, theme);
    let background = if selected { theme.selected } else { theme.background };
    assert(shown.spans.skip(5) =~= stat_pieces(file, background, theme));
}

/// The statistics stand in the color of added lines behind the plus, and in that of removed
/// ones behind the minus.
pub proof fn statistics_have_their_colors(file: FileView, background: Color, theme: Theme)
    ensures
        file.additions > 0 ==> stat_pieces(file, background, theme)[0].content == "+"@
            + decimal(file.additions) && stat_pieces(
            file,
            background,
            theme,
        )[0].style.fg == Some(theme.added),
        file.deletions > 0 ==> stat_pieces(file, background, theme).last().content == "-"@
            + decimal(file.deletions) && stat_pieces(
            file,
            background,
            theme,
        ).last().style.fg == Some(theme.removed),
        file.additions == 0 && file.deletions == 0 ==> stat_pieces(file, background, theme).len()
            == 0,
{
}

/// The row of a folder tells whether the folder is expanded.
pub proof fn folder_row_tells_the_folder(
    name: Seq<char>,
    depth: int,
    expanded: bool,
    marked: bool,
    stage: FileStage,
    width: int,
    theme: Theme,
)
    ensures
        ({
            let shown = folder_entry_row(name, depth, expanded, marked, stage, width, theme);
            &&& shown.spans.len() == 6
            &&& expanded ==> shown.spans[1].content == "\u{25be}"@
            &&& !expanded ==> shown.spans[1].content == "\u{25b8}"@
            &&& forall|i: int|
                0 <= i < 6 ==> (#[trigger] shown.spans[i]).style.bg == Some(
                    if marked { theme.selected } else { theme.background },
                )
        }),
{
}

/// A file is shown as reviewed exactly where its path is among the reviewed ones, and as
/// selected exactly where it is the active target. A folder is marked where it is the active
/// target, or where it hides the active file.
pub proof fn rows_are_marked_by_what_is_active(
    entry: EntryView,
    files: Seq<FileView>,
    reviewed: Set<Seq<char>>,
    active: TargetView,
    width: int,
    theme: Theme,
)
    ensures
        match entry {
            EntryView::File { index, .. } => {
                let shown = entry_row(entry, files, reviewed, active, width, theme);
                &&& reviewed.contains(files[index].shown_path()) ==> shown.spans[1].content
                    == "\u{f00c}"@
                &&& shown.spans[0].style.bg == Some(
                    if active == TargetView::File(index) {
                        theme.selected
                    } else {
                        theme.background
                    },
                )
            },
            EntryView::Folder { path, expanded, .. } => {
                let shown = entry_row(entry, files, reviewed, active, width, theme);
                let hides = active is File && 0 <= active->File_0 < files.len() && !expanded
                    && below_folder(files[active->File_0].shown_path(), path);
                &&& active == TargetView::Folder(path) || hides ==> shown.spans[0].style.bg
                    == Some(theme.selected)
                &&& active is Folder && active != TargetView::Folder(path)
                    ==> shown.spans[0].style.bg == Some(theme.background)
                &&& active is File && expanded ==> shown.spans[0].style.bg == Some(
                    theme.background,
                )
            },
        },
{
}

#[verifier::spinoff_prover]
#[verifier::rlimit(60)]
proof fn known_extensions(ext: Seq<char>)
    ensures
        ext == "rs"@ ==> FileKind::of_extension(ext) == FileKind::Rust,
        ext == "ts"@ ==> FileKind::of_extension(ext) == FileKind::TypeScript,
        ext == "tsx"@ || ext == "jsx"@ ==> FileKind::of_extension(ext) == FileKind::React,
        ext == "js"@ || ext == "mjs"@ || ext == "cjs"@ ==> FileKind::of_extension(ext)
            == FileKind::JavaScript,
        ext == "json"@ ==> FileKind::of_extension(ext) == FileKind::Json,
        ext == "py"@ ==> FileKind::of_extension(ext) == FileKind::Python,
        ext == "go"@ ==> FileKind::of_extension(ext) == FileKind::Go,
        ext == "rb"@ ==> FileKind::of_extension(ext) == FileKind::Ruby,
        ext == "java"@ ==> FileKind::of_extension(ext) == FileKind::Java,
        ext == "c"@ ==> FileKind::of_extension(ext) == FileKind::C,
        ext == "h"@ || ext == "hpp"@ || ext == "hh"@ ==> FileKind::of_extension(ext)
            == FileKind::CHeader,
        ext == "cpp"@ || ext == "cc"@ || ext == "cxx"@ ==> FileKind::of_extension(ext)
            == FileKind::Cpp,
        ext == "cs"@ ==> FileKind::of_extension(ext) == FileKind::CSharp,
        ext == "md"@ || ext == "markdown"@ ==> FileKind::of_extension(ext) == FileKind::Markdown,
        ext == "html"@ || ext == "htm"@ ==> FileKind::of_extension(ext) == FileKind::Html,
        ext == "css"@ ==> FileKind::of_extension(ext) == FileKind::Css,
        ext == "scss"@ || ext == "sass"@ ==> FileKind::of_extension(ext) == FileKind::Sass,
        ext == "vue"@ ==> FileKind::of_extension(ext) == FileKind::Vue,
        ext == "sh"@ || ext == "bash"@ || ext == "zsh"@ ==> FileKind::of_extension(ext)
            == FileKind::Shell,
        ext == "toml"@ || ext == "ini"@ || ext == "cfg"@ || ext == "conf"@
            ==> FileKind::of_extension(ext) == FileKind::Config,
        ext == "yaml"@ || ext == "yml"@ ==> FileKind::of_extension(ext) == FileKind::Yaml,
        ext == "txt"@ ==> FileKind::of_extension(ext) == FileKind::Text,
        ext == "png"@ || ext == "jpg"@ || ext == "jpeg"@ || ext == "gif"@ || ext == "svg"@
            || ext == "webp"@ ==> FileKind::of_extension(ext) == FileKind::Image,
        ext == "lock"@ ==> FileKind::of_extension(ext) == FileKind::Lock,
{
    reveal_strlit("rs");
    reveal_strlit("ts");
    reveal_strlit("tsx");
    reveal_strlit("jsx");
    reveal_strlit("js");
    reveal_strlit("mjs");
    reveal_strlit("cjs");
    reveal_strlit("json");
    reveal_strlit("py");
    reveal_strlit("go");
    reveal_strlit("rb");
    reveal_strlit("java");
    reveal_strlit("c");
    reveal_strlit("h");
    reveal_strlit("hpp");
    reveal_strlit("hh");
    reveal_strlit("cpp");
    reveal_strlit("cc");
    reveal_strlit("cxx");
    reveal_strlit("cs");
    reveal_strlit("md");
    reveal_strlit("markdown");
    reveal_strlit("html");
    reveal_strlit("htm");
    reveal_strlit("css");
    reveal_strlit("scss");
    reveal_strlit("sass");
    reveal_strlit("vue");
    reveal_strlit("sh");
    reveal_strlit("bash");
    reveal_strlit("zsh");
    reveal_strlit("toml");
    reveal_strlit("ini");
    reveal_strlit("cfg");
    reveal_strlit("conf");
    reveal_strlit("yaml");
    reveal_strlit("yml");
    reveal_strlit("txt");
    reveal_strlit("png");
    reveal_strlit("jpg");
    reveal_strlit("jpeg");
    reveal_strlit("gif");
    reveal_strlit("svg");
    reveal_strlit("webp");
    reveal_strlit("lock");
    assert("rs"@.len() == 2 && "rs"@[0] == 'r' && "rs"@[1] == 's');
    assert("ts"@.len() == 2 && "ts"@[0] == 't' && "ts"@[1] == 's');
    assert("tsx"@.len() == 3 && "tsx"@[0] == 't' && "tsx"@[1] == 's');
    assert("jsx"@.len() == 3 && "jsx"@[0] == 'j' && "jsx"@[1] == 's');
    assert("js"@.len() == 2 && "js"@[0] == 'j' && "js"@[1] == 's');
    assert("mjs"@.len() == 3 && "mjs"@[0] == 'm' && "mjs"@[1] == 'j');
    assert("cjs"@.len() == 3 && "cjs"@[0] == 'c' && "cjs"@[1] == 'j');
    assert("json"@.len() == 4 && "json"@[0] == 'j' && "json"@[1] == 's');
    assert("py"@.len() == 2 && "py"@[0] == 'p' && "py"@[1] == 'y');
    assert("go"@.len() == 2 && "go"@[0] == 'g' && "go"@[1] == 'o');
    assert("rb"@.len() == 2 && "rb"@[0] == 'r' && "rb"@[1] == 'b');
    assert("java"@.len() == 4 && "java"@[0] == 'j' && "java"@[1] == 'a');
    assert("c"@.len() == 1 && "c"@[0] == 'c');
    assert("h"@.len() == 1 && "h"@[0] == 'h');
    assert("hpp"@.len() == 3 && "hpp"@[0] == 'h' && "hpp"@[1] == 'p');
    assert("hh"@.len() == 2 && "hh"@[0] == 'h' && "hh"@[1] == 'h');
    assert("cpp"@.len() == 3 && "cpp"@[0] == 'c' && "cpp"@[1] == 'p');
    assert("cc"@.len() == 2 && "cc"@[0] == 'c' && "cc"@[1] == 'c');
    assert("cxx"@.len() == 3 && "cxx"@[0] == 'c' && "cxx"@[1] == 'x');
    assert("cs"@.len() == 2 && "cs"@[0] == 'c' && "cs"@[1] == 's');
    assert("md"@.len() == 2 && "md"@[0] == 'm' && "md"@[1] == 'd');
    assert("markdown"@.len() == 8 && "markdown"@[0] == 'm' && "markdown"@[1] == 'a');
    assert("html"@.len() == 4 && "html"@[0] == 'h' && "html"@[1] == 't');
    assert("htm"@.len() == 3 && "htm"@[0] == 'h' && "htm"@[1] == 't');
    assert("css"@.len() == 3 && "css"@[0] == 'c' && "css"@[1] == 's');
    assert("scss"@.len() == 4 && "scss"@[0] == 's' && "scss"@[1] == 'c');
    assert("sass"@.len() == 4 && "sass"@[0] == 's' && "sass"@[1] == 'a');
    assert("vue"@.len() == 3 && "vue"@[0] == 'v' && "vue"@[1] == 'u');
    assert("sh"@.len() == 2 && "sh"@[0] == 's' && "sh"@[1] == 'h');
    assert("bash"@.len() == 4 && "bash"@[0] == 'b' && "bash"@[1] == 'a');
    assert("zsh"@.len() == 3 && "zsh"@[0] == 'z' && "zsh"@[1] == 's');
    assert("toml"@.len() == 4 && "toml"@[0] == 't' && "toml"@[1] == 'o');
    assert("ini"@.len() == 3 && "ini"@[0] == 'i' && "ini"@[1] == 'n');
    assert("cfg"@.len() == 3 && "cfg"@[0] == 'c' && "cfg"@[1] == 'f');
    assert("conf"@.len() == 4 && "conf"@[0] == 'c' && "conf"@[1] == 'o');
    assert("yaml"@.len() == 4 && "yaml"@[0] == 'y' && "yaml"@[1] == 'a');
    assert("yml"@.len() == 3 && "yml"@[0] == 'y' && "yml"@[1] == 'm');
    assert("txt"@.len() == 3 && "txt"@[0] == 't' && "txt"@[1] == 'x');
    assert("png"@.len() == 3 && "png"@[0] == 'p' && "png"@[1] == 'n');
    assert("jpg"@.len() == 3 && "jpg"@[0] == 'j' && "jpg"@[1] == 'p');
    assert("jpeg"@.len() == 4 && "jpeg"@[0] == 'j' && "jpeg"@[1] == 'p');
    assert("gif"@.len() == 3 && "gif"@[0] == 'g' && "gif"@[1] == 'i');
    assert("svg"@.len() == 3 && "svg"@[0] == 's' && "svg"@[1] == 'v');
    assert("webp"@.len() == 4 && "webp"@[0] == 'w' && "webp"@[1] == 'e');
    assert("lock"@.len() == 4 && "lock"@[0] == 'l' && "lock"@[1] == 'o');
}

/// The kind of a file goes by the extension of its name, in either case of letters, and not
/// by the folders that it lies in; files without a known extension are of no particular kind.
pub proof fn kind_goes_by_extension(path: Seq<char>, other: Seq<char>, ext: Seq<char>)
    requires
        extension_of(ascii_lower_all(base_name(path))) == Some(ext),
    ensures
        ascii_lower_all(base_name(path)) == ascii_lower_all(base_name(other)) ==> FileKind::of_path(
            path,
        ) == FileKind::of_path(other),
        extension_of(ascii_lower_all(base_name(other))) is None ==> FileKind::of_path(other)
            == FileKind::Generic,
        ext == "rs"@ ==> FileKind::of_path(path) == FileKind::Rust,
        ext == "ts"@ ==> FileKind::of_path(path) == FileKind::TypeScript,
        ext == "tsx"@ || ext == "jsx"@ ==> FileKind::of_path(path) == FileKind::React,
        ext == "js"@ || ext == "mjs"@ || ext == "cjs"@ ==> FileKind::of_path(path)
            == FileKind::JavaScript,
        ext == "json"@ ==> FileKind::of_path(path) == FileKind::Json,
        ext == "py"@ ==> FileKind::of_path(path) == FileKind::Python,
        ext == "go"@ ==> FileKind::of_path(path) == FileKind::Go,
        ext == "rb"@ ==> FileKind::of_path(path) == FileKind::Ruby,
        ext == "java"@ ==> FileKind::of_path(path) == FileKind::Java,
        ext == "c"@ ==> FileKind::of_path(path) == FileKind::C,
        ext == "h"@ || ext == "hpp"@ || ext == "hh"@ ==> FileKind::of_path(path)
            == FileKind::CHeader,
        ext == "cpp"@ || ext == "cc"@ || ext == "cxx"@ ==> FileKind::of_path(path)
            == FileKind::Cpp,
        ext == "cs"@ ==> FileKind::of_path(path) == FileKind::CSharp,
        ext == "md"@ || ext == "markdown"@ ==> FileKind::of_path(path) == FileKind::Markdown,
        ext == "html"@ || ext == "htm"@ ==> FileKind::of_path(path) == FileKind::Html,
        ext == "css"@ ==> FileKind::of_path(path) == FileKind::Css,
        ext == "scss"@ || ext == "sass"@ ==> FileKind::of_path(path) == FileKind::Sass,
        ext == "vue"@ ==> FileKind::of_path(path) == FileKind::Vue,
        ext == "sh"@ || ext == "bash"@ || ext == "zsh"@ ==> FileKind::of_path(path)
            == FileKind::Shell,
        ext == "toml"@ || ext == "ini"@ || ext == "cfg"@ || ext == "conf"@
            ==> FileKind::of_path(path) == FileKind::Config,
        ext == "yaml"@ || ext == "yml"@ ==> FileKind::of_path(path) == FileKind::Yaml,
        ext == "txt"@ ==> FileKind::of_path(path) == FileKind::Text,
        ext == "png"@ || ext == "jpg"@ || ext == "jpeg"@ || ext == "gif"@ || ext == "svg"@
            || ext == "webp"@ ==> FileKind::of_path(path) == FileKind::Image,
        ext == "lock"@ ==> FileKind::of_path(path) == FileKind::Lock,
{
    known_extensions(ext);
}

proof fn restyled(chars: Seq<StyledChar>, style: spec_fn(int) -> Style)
    requires
        measured(chars),
    ensures
        ({
            let marked = Seq::new(
                chars.len(),
                |i: int| StyledChar { style: style(i), ..chars[i] },
            );
            cells(joined(marked)) == marked
        }),
{
    let marked = Seq::new(chars.len(), |i: int| StyledChar { style: style(i), ..chars[i] });
    assert forall|i: int| 0 <= i < marked.len() implies #[trigger] marked[i] == cell(
        marked[i].value,
        marked[i].style,
    ) by {
        assert(chars[i] == cell(chars[i].value, chars[i].style));
    }
    joined_keeps_cells(marked);
}

/// A search marks exactly the characters of its matches: those of the active match on the
/// accent color, those of the others on the color of selected rows. All other characters
/// keep their style.
pub proof fn search_marks_its_matches(
    search: SearchView,
    line: RowView,
    row: int,
    theme: Theme,
    i: int,
)
    requires
        0 <= i < cells(line.spans).len(),
    ensures
        ({
            let before = cells(line.spans)[i];
            let after = cells(highlighted_row(search, line, row, theme).spans)[i];
            let active = search.active_index is Some && search.active_index->0
                < search.matches.len() && {
                let found = search.matches[search.active_index->0 as int];
                found.row == row && found.start <= i < found.end
            };
            let any = exists|m: int|
                0 <= m < search.matches.len() && (#[trigger] search.matches[m]).row == row
                    && search.matches[m].start <= i < search.matches[m].end;
            &&& after.value == before.value
            &&& active ==> after.style.bg == Some(theme.accent) && after.style.fg == Some(
                theme.on_accent,
            ) && after.style.bold
            &&& any && !active ==> after.style.bg == Some(theme.selected) && after.style.bold
                && after.style.fg == before.style.fg
            &&& !any ==> after.style == before.style
        }),
{
    let chars = cells(line.spans);
    cells_measured(line.spans);
    restyled(chars, |j: int| match_style(search, row, j, chars[j].style, theme));
    let marked = Seq::new(
        chars.len(),
        |j: int|
            StyledChar { style: match_style(search, row, j, chars[j].style, theme), ..chars[j] },
    );
    let other = Seq::new(
        chars.len(),
        |j: int|
            StyledChar {
                style: (|j: int| match_style(search, row, j, chars[j].style, theme))(j),
                ..chars[j]
            },
    );
    assert(marked =~= other);
    let any = exists|m: int|
        0 <= m < search.matches.len() && (#[trigger] search.matches[m]).row == row
            && search.matches[m].start <= i < search.matches[m].end;
    if any {
        let m = choose|m: int|
            0 <= m < search.matches.len() && (#[trigger] search.matches[m]).row == row
                && search.matches[m].start <= i < search.matches[m].end;
        assert(search.row_has_match(row));
        assert(covers(search.matches[m], row, i));
        assert(search.any_covers(row, i));
    }
}

/// A refreshed search looks in the rows that are shown: the active match stays where the
/// file is the same and as many matches are left, and else is the first, or the last that is
/// left.
pub proof fn refreshed_search_keeps_its_place(
    search: SearchView,
    file_id: Seq<char>,
    rows: Seq<RowView>,
)
    ensures
        ({
            let after = search.refreshed(file_id, rows);
            let found = after.matches.len();
            &&& after.query == search.query && after.input == search.input && after.prompt_open
                == search.prompt_open
            &&& search.query.len() == 0 ==> found == 0 && after.active_index is None
            &&& found == 0 ==> after.active_index is None
            &&& found > 0 && search.match_file_id == Some(file_id) && search.active_index is Some
                && search.active_index->0 < found && found <= usize::MAX ==> after.active_index
                == search.active_index
            &&& found > 0 && search.match_file_id != Some(file_id) ==> after.active_index == Some(
                0usize,
            )
            &&& search.query.len() > 0 ==> after.match_file_id == Some(file_id)
                && !after.scroll_pending
        }),
{
}

/// The status of a search tells what is typed while the prompt is open, and else the query
/// with the number of the active match, counted from one.
pub proof fn search_status_is_of_its_state(search: SearchView)
    ensures
        search.prompt_open ==> search.status() == Some(
            SearchStatusView::Prompt { input: search.input },
        ),
        !search.prompt_open && search.query.len() == 0 ==> search.status() is None,
        !search.prompt_open && search.query.len() > 0 && search.active_index is Some ==> (
        search.status() matches Some(shown) && shown is Active && shown->active == Some(
            search.active_index->0 as int + 1,
        ) && shown->total == search.matches.len() && shown->query == search.query),
{
}

/// A query is found in either case of its letters: the query in capitals, or the text in
/// capitals, makes no difference.
pub proof fn search_ignores_the_case_of_letters(text: Seq<char>, query: Seq<char>, at: int)
    ensures
        matches_at(text, query, at) == matches_at(text, ascii_lower_all(query), at),
        matches_at(text, query, at) == matches_at(ascii_lower_all(text), query, at),
        0 <= at && at + query.len() <= text.len() && text.subrange(at, at + query.len()) == query
            ==> matches_at(text, query, at),
{
    let lower = ascii_lower_all(query);
    let low = ascii_lower_all(text);
    if 0 <= at && at + query.len() <= text.len() {
        assert forall|i: int| 0 <= i < query.len() implies chars_match(
            #[trigger] text[at + i],
            query[i],
        ) == chars_match(text[at + i], lower[i]) && chars_match(text[at + i], query[i])
            == chars_match(low[at + i], query[i]) by {
            assert(lower[i] == ascii_lower(query[i]));
            assert(low[at + i] == ascii_lower(text[at + i]));
        }
        if matches_at(text, query, at) {
            assert forall|i: int| 0 <= i < query.len() implies chars_match(
                #[trigger] low[at + i],
                query[i],
            ) by {
                assert(chars_match(text[at + i], query[i]));
            }
        }
        if matches_at(text, lower, at) {
            assert forall|i: int| 0 <= i < query.len() implies chars_match(
                #[trigger] text[at + i],
                query[i],
            ) by {
                assert(chars_match(text[at + i], lower[i]));
            }
        }
        if matches_at(low, query, at) {
            assert forall|i: int| 0 <= i < query.len() implies chars_match(
                #[trigger] text[at + i],
                query[i],
            ) by {
                assert(chars_match(low[at + i], query[i]));
            }
        }
        if text.subrange(at, at + query.len()) == query {
            assert forall|i: int| 0 <= i < query.len() implies chars_match(
                #[trigger] text[at + i],
                query[i],
            ) by {
                assert(text.subrange(at, at + query.len())[i] == text[at + i]);
            }
        }
    }
}

/// A search prompt starts with the query that is active, and applying it empty ends the
/// search.
pub proof fn prompt_starts_with_the_query(search: SearchView)
    ensures
        search.prompt_opened().input == search.query && search.prompt_opened().prompt_open,
        search.prompt_opened().query == search.query,
        search.input.len() == 0 ==> search.applied().query.len() == 0
            && !search.applied().prompt_open,
        search.input.len() > 0 ==> search.applied().query == search.input
            && !search.applied().prompt_open && search.applied().scroll_pending,
        search.cleared().query.len() == 0 && search.cleared().matches.len() == 0
            && !search.cleared().prompt_open,
{
}

/// Every kind of file has its glyph.
pub proof fn kinds_have_their_glyphs(kind: FileKind)
    ensures
        kind.glyph() == match kind {
            FileKind::Rust => "\u{e7a8}"@,
            FileKind::TypeScript => "\u{e628}"@,
            FileKind::React => "\u{e7ba}"@,
            FileKind::JavaScript => "\u{e74e}"@,
            FileKind::Json => "\u{e60b}"@,
            FileKind::Python => "\u{e606}"@,
            FileKind::Go => "\u{e627}"@,
            FileKind::Ruby => "\u{e21e}"@,
            FileKind::Java => "\u{e256}"@,
            FileKind::C => "\u{e61e}"@,
            FileKind::CHeader => "\u{f0fd}"@,
            FileKind::Cpp => "\u{e61d}"@,
            FileKind::CSharp => "\u{e648}"@,
            FileKind::Markdown => "\u{e609}"@,
            FileKind::Html => "\u{e736}"@,
            FileKind::Css => "\u{e749}"@,
            FileKind::Sass => "\u{e603}"@,
            FileKind::Vue => "\u{fd42}"@,
            FileKind::Shell => "\u{e795}"@,
            FileKind::Config => "\u{f013}"@,
            FileKind::Yaml => "\u{e615}"@,
            FileKind::Text => "\u{f15c}"@,
            FileKind::Image => "\u{f1c5}"@,
            FileKind::Lock => "\u{f023}"@,
            FileKind::Generic => "\u{f15b}"@,
        },
{
}

} // verus!
