//! How names are written, ordered and read.

use vstd::prelude::*;
use vstd::string::*;

use crate::quoting::{escaped_byte, octal_byte, octal_digit, written_byte};
use crate::rows::tree::{
    child_path_of, files_here, folder_entries, item_less, item_of, item_place, named_parts,
    text_less, tree_entries, EntryView, ItemView,
};
use crate::style::{Color, Style};
use crate::syntax::{
    extension_candidates, first_syntax, known_file, path_candidates, path_extension_of,
    path_parts_syntax, path_syntax, token_look, SyntaxTokenView,
};
use crate::text::{after, file_name_of, pieces_of_one_or_two, trimmed};

verus! {

/// Bytes that stand between quotes are escaped as in C: control characters by their letter
/// where they have one, the quote and the backslash by themselves, all others by three octal
/// digits. Every other byte stands for itself.
pub proof fn bytes_are_escaped_as_in_c(byte: u8)
    ensures
        written_byte(7) == seq!['\\', 'a'] && written_byte(8) == seq!['\\', 'b'],
        written_byte(9) == seq!['\\', 't'] && written_byte(10) == seq!['\\', 'n'],
        written_byte(11) == seq!['\\', 'v'] && written_byte(12) == seq!['\\', 'f'],
        written_byte(13) == seq!['\\', 'r'],
        written_byte(34) == seq!['\\', '"'] && written_byte(92) == seq!['\\', '\\'],
        byte < 7 || 13 < byte < 32 || byte >= 127 ==> {
            let text = written_byte(byte);
            &&& text.len() == 4 && text[0] == '\\'
            &&& text[1] as int - 48 <= 3 && text[2] as int - 48 <= 7 && text[3] as int - 48 <= 7
            &&& (text[1] as int - 48) * 64 + (text[2] as int - 48) * 8 + (text[3] as int - 48)
                == byte
            &&& octal_byte(text[1], text[2], text[3]) == Some(byte)
        },
        32 <= byte < 127 && byte != 34 && byte != 92 ==> written_byte(byte) == seq![byte as char],
        escaped_byte('n') == Some(10u8) && escaped_byte('t') == Some(9u8),
        escaped_byte('"') == Some(34u8) && escaped_byte('\\') == Some(92u8),
{
    let (a, b, c) = (byte as int / 64, byte as int / 8 % 8, byte as int % 8);
    assert(0 <= a <= 3 && 0 <= b <= 7 && 0 <= c <= 7);
    assert(a * 64 + b * 8 + c == byte);
    assert(octal_digit(a) as int == 48 + a);
    assert(octal_digit(b) as int == 48 + b);
    assert(octal_digit(c) as int == 48 + c);
}

/// Names are ordered by their first different character, and a name stands before those
/// that it begins.
pub proof fn names_are_ordered_by_their_first_difference(a: Seq<char>, b: Seq<char>, k: int)
    requires
        0 <= k <= a.len(),
        k <= b.len(),
        forall|i: int| 0 <= i < k ==> #[trigger] a[i] == b[i],
    ensures
        k < a.len() && k < b.len() && a[k] < b[k] ==> text_less(a, b) && !text_less(b, a),
        k == a.len() && k < b.len() ==> text_less(a, b) && !text_less(b, a),
        !text_less(a, a),
    decreases a.len(),
{
    if a.len() > 0 {
        let (x, y) = (a.skip(1), b.skip(1));
        names_are_ordered_by_their_first_difference(x, x, 0);
        if k > 0 {
            assert(a[0] == b[0]);
            assert forall|i: int| 0 <= i < k - 1 implies #[trigger] x[i] == y[i] by {
                assert(x[i] == a[i + 1]);
                assert(y[i] == b[i + 1]);
            }
            names_are_ordered_by_their_first_difference(x, y, k - 1);
        }
    }
}

/// A path is divided at its slashes: the last part is the name of the file, the others are
/// the folders that lead to it.
pub proof fn path_is_divided_at_its_slashes(folder: Seq<char>, name: Seq<char>, index: int)
    requires
        folder.len() > 0,
        name.len() > 0,
        !folder.contains('/'),
        !name.contains('/'),
    ensures
        item_of(name, index) == (ItemView { dirs: seq![], name, index }),
        item_of(folder.push('/') + name, index) == (ItemView { dirs: seq![folder], name, index }),
        child_path_of(seq![], folder) == folder,
        child_path_of(folder, name) == folder + "/"@ + name,
{
    pieces_of_one_or_two(name, name, '/');
    pieces_of_one_or_two(folder, name, '/');
    reveal_with_fuel(named_parts, 3);
    assert(seq![name].drop_last() =~= seq![]);
    assert(named_parts(seq![name]) =~= seq![name]);
    assert(seq![folder, name].drop_last() =~= seq![folder]);
    assert(seq![folder].drop_last() =~= seq![]);
    assert(named_parts(seq![folder, name]) =~= seq![folder, name]);
    assert(seq![name].drop_last() =~= Seq::<Seq<char>>::empty());
}

proof fn less_is_transitive(a: Seq<char>, b: Seq<char>, c: Seq<char>)
    ensures
        text_less(a, b) && text_less(b, c) ==> text_less(a, c),
        text_less(a, b) || text_less(b, a) || a == b,
    decreases a.len(),
{
    if a.len() > 0 && b.len() > 0 {
        less_is_transitive(a.skip(1), b.skip(1), c.skip(1));
        if a[0] == b[0] && a.skip(1) == b.skip(1) {
            assert(a =~= seq![a[0]] + a.skip(1));
            assert(b =~= seq![b[0]] + b.skip(1));
        }
    }
    if a.len() == 0 && b.len() == 0 {
        assert(a =~= b);
    }
}

proof fn item_order(a: ItemView, b: ItemView, c: ItemView)
    ensures
        item_less(a, b) && item_less(b, c) ==> item_less(a, c),
        item_less(a, b) || item_less(b, a) || (a.name == b.name && a.index == b.index),
{
    less_is_transitive(a.name, b.name, c.name);
}

/// Whether no item of a list stands before one that it should follow.
pub open spec fn items_sorted(items: Seq<ItemView>) -> bool {
    forall|i: int, j: int|
        0 <= i < j < items.len() ==> !item_less(#[trigger] items[j], #[trigger] items[i])
}

proof fn place_keeps_order(sorted: Seq<ItemView>, item: ItemView, n: int)
    requires
        items_sorted(sorted),
        0 <= n <= sorted.len(),
        forall|i: int| n <= i < sorted.len() ==> !item_less(#[trigger] sorted[i], item),
    ensures
        0 <= item_place(sorted, item, n) <= n,
        items_sorted(sorted.insert(item_place(sorted, item, n), item)),
    decreases n,
{
    let at = item_place(sorted, item, n);
    if n > 0 && !item_less(sorted[n - 1], item) {
        place_keeps_order(sorted, item, n - 1);
    } else {
        assert(at == n);
        let all = sorted.insert(at, item);
        assert forall|i: int, j: int| 0 <= i < j < all.len() implies !item_less(
            #[trigger] all[j],
            #[trigger] all[i],
        ) by {
            let before = |k: int| if k < at { sorted[k] } else { sorted[k - 1] };
            if i == at {
                assert(all[i] == item);
                assert(all[j] == sorted[j - 1]);
            } else if j == at {
                assert(all[j] == item);
                assert(all[i] == sorted[i]);
                assert(item_less(sorted[n - 1], item));
                if item_less(item, sorted[i]) {
                    item_order(sorted[n - 1], item, sorted[i]);
                    if i < n - 1 {
                        assert(!item_less(sorted[n - 1], sorted[i]));
                    } else {
                        item_order(sorted[i], item, sorted[i]);
                        less_is_irreflexive(sorted[i].name);
                    }
                }
            } else {
                assert(all[i] == before(i));
                assert(all[j] == before(j));
                let (x, y) = (if i < at { i } else { i - 1 }, if j < at { j } else { j - 1 });
                assert(all[i] == sorted[x] && all[j] == sorted[y] && x < y);
            }
        }
    }
}

proof fn less_is_irreflexive(a: Seq<char>)
    ensures
        !text_less(a, a),
    decreases a.len(),
{
    if a.len() > 0 {
        less_is_irreflexive(a.skip(1));
    }
}

proof fn files_are_sorted(items: Seq<ItemView>)
    ensures
        items_sorted(files_here(items)),
    decreases items.len(),
{
    if items.len() > 0 {
        files_are_sorted(items.drop_last());
        let before = files_here(items.drop_last());
        if items.last().dirs.len() == 0 {
            place_keeps_order(before, items.last(), before.len() as int);
        }
    }
}

/// The files of a folder stand in the order of their names, and files of one name in the
/// order of the review.
pub proof fn files_stand_in_order(items: Seq<ItemView>, i: int, j: int)
    requires
        0 <= i < j < files_here(items).len(),
    ensures
        ({
            let (a, b) = (files_here(items)[i], files_here(items)[j]);
            &&& text_less(a.name, b.name) || a.name == b.name
            &&& a.name == b.name ==> a.index <= b.index
        }),
{
    files_are_sorted(items);
    let (a, b) = (files_here(items)[i], files_here(items)[j]);
    assert(!item_less(b, a));
    less_is_transitive(a.name, b.name, a.name);
}

/// In every folder the folders stand before the files, and the files are as deep as the
/// folder says.
pub proof fn folders_stand_before_files(
    items: Seq<ItemView>,
    prefix: Seq<char>,
    depth: int,
    collapsed: Set<Seq<char>>,
    i: int,
)
    requires
        0 <= i < files_here(items).len(),
    ensures
        ({
            let entries = tree_entries(items, prefix, depth, collapsed);
            let n = entries.len() - files_here(items).len();
            &&& n == folder_entries(items, prefix, depth, collapsed, 0).len()
            &&& entries[n + i] == (EntryView::File { index: files_here(items)[i].index, depth })
        }),
{
}

/// The extension of a path is what stands behind the dot in the name of the file; a name
/// that only begins with a dot has none.
pub proof fn extension_stands_behind_the_dot(path: Seq<char>, stem: Seq<char>, extension: Seq<char>)
    requires
        file_name_of(path) == Some(stem.push('.') + extension),
        !stem.contains('.'),
        !extension.contains('.'),
    ensures
        stem.len() > 0 ==> path_extension_of(path) == Some(extension),
        stem.len() == 0 ==> path_extension_of(path) is None,
{
    pieces_of_one_or_two(stem, extension, '.');
}

/// A known file keeps its syntax with an extension, and not where its name goes on
/// otherwise.
pub proof fn known_files_may_have_an_extension(known: Seq<char>, rest: Seq<char>)
    ensures
        known_file(known, known),
        rest.len() > 0 ==> (known_file(known + rest, known) <==> rest[0] == '.'),
{
    assert((known + rest).subrange(0, known.len() as int) =~= known);
    assert(after(known + rest, known.len() as int) =~= rest);
    if rest.len() > 0 {
        assert((known + rest).len() != known.len());
    }
}

/// The syntax of a path is that of its name or extension where the engine knows it, and else
/// the first one known for such files; a blank path has none.
pub proof fn syntax_is_looked_up_in_order(path: Seq<char>)
    ensures
        trimmed(path).len() == 0 ==> path_syntax(path) is None,
        trimmed(path).len() > 0 && path_parts_syntax(trimmed(path)) is Some ==> path_syntax(path)
            == path_parts_syntax(trimmed(path)),
        trimmed(path).len() > 0 && path_parts_syntax(trimmed(path)) is None ==> path_syntax(path)
            == first_syntax(path_candidates(trimmed(path)), 0),
{
}

/// A token has the color that the engine gives it and is bold where the engine says so, on
/// the background of its line.
pub proof fn tokens_have_their_color(token: SyntaxTokenView, base: Style, r: u8, g: u8, b: u8)
    requires
        token.color == (r, g, b),
    ensures
        token_look(token, base).fg == Some(Color::Rgb(r, g, b)),
        token_look(token, base).bg == base.bg,
        token.bold ==> token_look(token, base).bold,
        !token.bold ==> token_look(token, base).bold == base.bold,
{
}

/// What is known of the syntax of an extension that the engine does not know: the syntaxes to
/// try, in order, by extension and by name.
#[verifier::spinoff_prover]
#[verifier::rlimit(80)]
pub proof fn known_extensions_have_their_syntaxes(ext: Seq<char>)
    ensures
        ext == "rs"@ ==> extension_candidates(ext) == seq![("rs"@, "Rust"@)],
        ext == "vue"@ ==> extension_candidates(ext)
            == seq![("vue"@, "Vue Component"@), ("vue"@, "Vue"@)],
        ext == "svelte"@ ==> extension_candidates(ext) == seq![("svelte"@, "Svelte"@)],
        ext == "js"@ || ext == "jsx"@ || ext == "mjs"@ || ext == "cjs"@
            ==> extension_candidates(ext) == seq![("js"@, "JavaScript"@)],
        ext == "ts"@ || ext == "mts"@ || ext == "cts"@ ==> extension_candidates(ext)
            == seq![("ts"@, "TypeScript"@), ("js"@, "JavaScript"@)],
        ext == "tsx"@ ==> extension_candidates(ext)
            == seq![("tsx"@, "TypescriptReact"@), ("ts"@, "TypeScript"@), ("js"@, "JavaScript"@)],
        ext == "json"@ || ext == "jsonc"@ || ext == "json5"@ ==> extension_candidates(ext)
            == seq![("json"@, "JSON"@)],
        ext == "md"@ || ext == "markdown"@ || ext == "mdx"@ ==> extension_candidates(ext)
            == seq![("md"@, "Markdown"@)],
        ext == "html"@ || ext == "htm"@ ==> extension_candidates(ext) == seq![("html"@, "HTML"@)],
        ext == "xml"@ || ext == "xhtml"@ || ext == "svg"@ ==> extension_candidates(ext)
            == seq![("xml"@, "XML"@)],
        ext == "css"@ ==> extension_candidates(ext) == seq![("css"@, "CSS"@)],
        ext == "scss"@ ==> extension_candidates(ext) == seq![("scss"@, "SCSS"@)],
        ext == "sass"@ ==> extension_candidates(ext)
            == seq![("sass"@, "Sass"@), ("scss"@, "SCSS"@), ("css"@, "CSS"@)],
        ext == "less"@ ==> extension_candidates(ext) == seq![("less"@, "LESS"@)],
        ext == "styl"@ || ext == "stylus"@ ==> extension_candidates(ext)
            == seq![("styl"@, "Stylus"@)],
        ext == "yaml"@ || ext == "yml"@ ==> extension_candidates(ext) == seq![("yaml"@, "YAML"@)],
        ext == "graphql"@ || ext == "gql"@ ==> extension_candidates(ext)
            == seq![("graphql"@, "GraphQL"@)],
        ext == "sql"@ || ext == "psql"@ || ext == "mysql"@ ==> extension_candidates(ext)
            == seq![("sql"@, "SQL"@)],
        ext == "sh"@ || ext == "bash"@ || ext == "zsh"@ ==> extension_candidates(ext)
            == seq![("sh"@, "ShellScript"@)],
        ext == "fish"@ ==> extension_candidates(ext) == seq![("fish"@, "Fish"@)],
        ext == "ps1"@ ==> extension_candidates(ext) == seq![("ps1"@, "PowerShell"@)],
        ext == "toml"@ ==> extension_candidates(ext)
            == seq![("toml"@, "TOML"@), ("ini"@, "INI"@), ("yaml"@, "YAML"@), ("json"@, "JSON"@)],
        ext == "ini"@ ==> extension_candidates(ext) == seq![("ini"@, "INI"@)],
        ext == "py"@ || ext == "pyw"@ ==> extension_candidates(ext) == seq![("py"@, "Python"@)],
        ext == "go"@ ==> extension_candidates(ext) == seq![("go"@, "Go"@)],
        ext == "java"@ ==> extension_candidates(ext) == seq![("java"@, "Java"@)],
        ext == "kt"@ || ext == "kts"@ ==> extension_candidates(ext) == seq![("kt"@, "Kotlin"@)],
        ext == "swift"@ ==> extension_candidates(ext) == seq![("swift"@, "Swift"@)],
        ext == "php"@ ==> extension_candidates(ext) == seq![("php"@, "PHP"@)],
        ext == "rb"@ ==> extension_candidates(ext) == seq![("rb"@, "Ruby"@)],
        ext == "lua"@ ==> extension_candidates(ext) == seq![("lua"@, "Lua"@)],
        ext == "vim"@ ==> extension_candidates(ext) == seq![("vim"@, "VimL"@)],
        ext == "nix"@ ==> extension_candidates(ext) == seq![("nix"@, "Nix"@)],
        ext == "tf"@ || ext == "tfvars"@ ==> extension_candidates(ext)
            == seq![("tf"@, "Terraform"@)],
        ext == "c"@ || ext == "h"@ ==> extension_candidates(ext) == seq![("c"@, "C"@)],
        ext == "cc"@ || ext == "cpp"@ || ext == "cxx"@ || ext == "hpp"@ || ext == "hh"@
            || ext == "hxx"@ ==> extension_candidates(ext) == seq![("cpp"@, "C++"@)],
        ext == "cs"@ ==> extension_candidates(ext) == seq![("cs"@, "C#"@)],
{
    reveal_strlit("rs");
    reveal_strlit("vue");
    reveal_strlit("svelte");
    reveal_strlit("js");
    reveal_strlit("jsx");
    reveal_strlit("mjs");
    reveal_strlit("cjs");
    reveal_strlit("ts");
    reveal_strlit("mts");
    reveal_strlit("cts");
    reveal_strlit("tsx");
    reveal_strlit("json");
    reveal_strlit("jsonc");
    reveal_strlit("json5");
    reveal_strlit("md");
    reveal_strlit("markdown");
    reveal_strlit("mdx");
    reveal_strlit("html");
    reveal_strlit("htm");
    reveal_strlit("xml");
    reveal_strlit("xhtml");
    reveal_strlit("svg");
    reveal_strlit("css");
    reveal_strlit("scss");
    reveal_strlit("sass");
    reveal_strlit("less");
    reveal_strlit("styl");
    reveal_strlit("stylus");
    reveal_strlit("yaml");
    reveal_strlit("yml");
    reveal_strlit("graphql");
    reveal_strlit("gql");
    reveal_strlit("sql");
    reveal_strlit("psql");
    reveal_strlit("mysql");
    reveal_strlit("sh");
    reveal_strlit("bash");
    reveal_strlit("zsh");
    reveal_strlit("fish");
    reveal_strlit("ps1");
    reveal_strlit("toml");
    reveal_strlit("ini");
    reveal_strlit("py");
    reveal_strlit("pyw");
    reveal_strlit("go");
    reveal_strlit("java");
    reveal_strlit("kt");
    reveal_strlit("kts");
    reveal_strlit("swift");
    reveal_strlit("php");
    reveal_strlit("rb");
    reveal_strlit("lua");
    reveal_strlit("vim");
    reveal_strlit("nix");
    reveal_strlit("tf");
    reveal_strlit("tfvars");
    reveal_strlit("c");
    reveal_strlit("h");
    reveal_strlit("cc");
    reveal_strlit("cpp");
    reveal_strlit("cxx");
    reveal_strlit("hpp");
    reveal_strlit("hh");
    reveal_strlit("hxx");
    reveal_strlit("cs");
    assert("rs"@.len() == 2 && "rs"@[0] == 'r' && "rs"@[1] == 's');
    assert("vue"@.len() == 3 && "vue"@[0] == 'v' && "vue"@[1] == 'u');
    assert("svelte"@.len() == 6 && "svelte"@[0] == 's' && "svelte"@[1] == 'v');
    assert("js"@.len() == 2 && "js"@[0] == 'j');
    assert("jsx"@.len() == 3 && "jsx"@[0] == 'j');
    assert("mjs"@.len() == 3 && "mjs"@[0] == 'm' && "mjs"@[1] == 'j');
    assert("cjs"@.len() == 3 && "cjs"@[0] == 'c' && "cjs"@[1] == 'j');
    assert("ts"@.len() == 2 && "ts"@[0] == 't' && "ts"@[1] == 's');
    assert("mts"@.len() == 3 && "mts"@[0] == 'm' && "mts"@[1] == 't');
    assert("cts"@.len() == 3 && "cts"@[0] == 'c' && "cts"@[1] == 't');
    assert("tsx"@.len() == 3 && "tsx"@[0] == 't');
    assert("json"@.len() == 4 && "json"@[0] == 'j' && "json"@[1] == 's');
    assert("jsonc"@.len() == 5 && "jsonc"@[0] == 'j' && "jsonc"@[4] == 'c');
    assert("json5"@.len() == 5 && "json5"@[0] == 'j' && "json5"@[4] == '5');
    assert("md"@.len() == 2 && "md"@[0] == 'm');
    assert("markdown"@.len() == 8);
    assert("mdx"@.len() == 3 && "mdx"@[0] == 'm' && "mdx"@[1] == 'd');
    assert("html"@.len() == 4 && "html"@[0] == 'h');
    assert("htm"@.len() == 3 && "htm"@[0] == 'h' && "htm"@[1] == 't');
    assert("xml"@.len() == 3 && "xml"@[0] == 'x');
    assert("xhtml"@.len() == 5 && "xhtml"@[0] == 'x');
    assert("svg"@.len() == 3 && "svg"@[0] == 's' && "svg"@[1] == 'v');
    assert("css"@.len() == 3 && "css"@[0] == 'c' && "css"@[1] == 's');
    assert("scss"@.len() == 4 && "scss"@[0] == 's' && "scss"@[1] == 'c');
    assert("sass"@.len() == 4 && "sass"@[0] == 's' && "sass"@[1] == 'a');
    assert("less"@.len() == 4 && "less"@[0] == 'l');
    assert("styl"@.len() == 4 && "styl"@[0] == 's' && "styl"@[1] == 't');
    assert("stylus"@.len() == 6 && "stylus"@[0] == 's' && "stylus"@[1] == 't');
    assert("yaml"@.len() == 4 && "yaml"@[0] == 'y');
    assert("yml"@.len() == 3 && "yml"@[0] == 'y');
    assert("graphql"@.len() == 7);
    assert("gql"@.len() == 3 && "gql"@[0] == 'g');
    assert("sql"@.len() == 3 && "sql"@[0] == 's' && "sql"@[1] == 'q');
    assert("psql"@.len() == 4 && "psql"@[0] == 'p');
    assert("mysql"@.len() == 5 && "mysql"@[0] == 'm');
    assert("sh"@.len() == 2 && "sh"@[0] == 's');
    assert("bash"@.len() == 4 && "bash"@[0] == 'b');
    assert("zsh"@.len() == 3 && "zsh"@[0] == 'z');
    assert("fish"@.len() == 4 && "fish"@[0] == 'f');
    assert("ps1"@.len() == 3 && "ps1"@[0] == 'p' && "ps1"@[1] == 's');
    assert("toml"@.len() == 4 && "toml"@[0] == 't');
    assert("ini"@.len() == 3 && "ini"@[0] == 'i');
    assert("py"@.len() == 2 && "py"@[0] == 'p');
    assert("pyw"@.len() == 3 && "pyw"@[0] == 'p' && "pyw"@[1] == 'y');
    assert("go"@.len() == 2 && "go"@[0] == 'g');
    assert("java"@.len() == 4 && "java"@[0] == 'j' && "java"@[1] == 'a');
    assert("kt"@.len() == 2 && "kt"@[0] == 'k');
    assert("kts"@.len() == 3 && "kts"@[0] == 'k');
    assert("swift"@.len() == 5 && "swift"@[0] == 's');
    assert("php"@.len() == 3 && "php"@[0] == 'p' && "php"@[1] == 'h');
    assert("rb"@.len() == 2 && "rb"@[0] == 'r' && "rb"@[1] == 'b');
    assert("lua"@.len() == 3 && "lua"@[0] == 'l');
    assert("vim"@.len() == 3 && "vim"@[0] == 'v' && "vim"@[1] == 'i');
    assert("nix"@.len() == 3 && "nix"@[0] == 'n');
    assert("tf"@.len() == 2 && "tf"@[0] == 't' && "tf"@[1] == 'f');
    assert("tfvars"@.len() == 6 && "tfvars"@[0] == 't');
    assert("c"@.len() == 1 && "c"@[0] == 'c');
    assert("h"@.len() == 1 && "h"@[0] == 'h');
    assert("cc"@.len() == 2 && "cc"@[0] == 'c' && "cc"@[1] == 'c');
    assert("cpp"@.len() == 3 && "cpp"@[0] == 'c' && "cpp"@[1] == 'p');
    assert("cxx"@.len() == 3 && "cxx"@[0] == 'c' && "cxx"@[1] == 'x');
    assert("hpp"@.len() == 3 && "hpp"@[0] == 'h' && "hpp"@[1] == 'p');
    assert("hh"@.len() == 2 && "hh"@[0] == 'h');
    assert("hxx"@.len() == 3 && "hxx"@[0] == 'h' && "hxx"@[1] == 'x');
    assert("cs"@.len() == 2 && "cs"@[0] == 'c' && "cs"@[1] == 's');
}

} // verus!
