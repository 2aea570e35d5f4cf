//! The tree of changed files: folders first, then files, each by name.

use vstd::prelude::*;
use super::sidebar::{SidebarRowTarget, TargetView};

use crate::model::{file_views, DiffFile, FileView};
use crate::path_set::PathSet;
use crate::text::{cat3, chars_of, pieces, same, split, texts};

verus! {

/// A row of the tree.
#[derive(Debug, PartialEq, Eq)]
pub enum SidebarEntry {
    Folder { path: String, name: String, depth: usize, expanded: bool },
    File { index: usize, depth: usize },
}

/// What a [`SidebarEntry`] holds.
pub enum EntryView {
    Folder { path: Seq<char>, name: Seq<char>, depth: int, expanded: bool },
    File { index: int, depth: int },
}

impl View for SidebarEntry {
    type V = EntryView;

    open spec fn view(&self) -> EntryView {
        match *self {
            SidebarEntry::Folder { path, name, depth, expanded } => EntryView::Folder {
                path: path@,
                name: name@,
                depth: depth as int,
                expanded,
            },
            SidebarEntry::File { index, depth } => EntryView::File {
                index: index as int,
                depth: depth as int,
            },
        }
    }
}

pub open spec fn entry_views(entries: Seq<SidebarEntry>) -> Seq<EntryView> {
    entries.map_values(|entry: SidebarEntry| entry@)
}

impl EntryView {
    pub open spec fn target(self) -> TargetView {
        match self {
            EntryView::Folder { path, .. } => TargetView::Folder(path),
            EntryView::File { index, .. } => TargetView::File(index),
        }
    }
}

/// A file below a folder: the folders on the way to it, its name and its position
/// among the files of the review.
#[derive(Debug)]
pub struct TreeItem {
    pub dirs: Vec<String>,
    pub name: String,
    pub index: usize,
}

/// What a [`TreeItem`] holds.
pub struct ItemView {
    pub dirs: Seq<Seq<char>>,
    pub name: Seq<char>,
    pub index: int,
}

impl View for TreeItem {
    type V = ItemView;

    open spec fn view(&self) -> ItemView {
        ItemView { dirs: texts(self.dirs@), name: self.name@, index: self.index as int }
    }
}

pub open spec fn item_views(items: Seq<TreeItem>) -> Seq<ItemView> {
    items.map_values(|item: TreeItem| item@)
}

/// Whether `a` stands before `b` in the order of their code points.
pub open spec fn text_less(a: Seq<char>, b: Seq<char>) -> bool
    decreases a.len(),
{
    if b.len() == 0 {
        false
    } else if a.len() == 0 {
        true
    } else if a[0] != b[0] {
        a[0] < b[0]
    } else {
        text_less(a.skip(1), b.skip(1))
    }
}

/// How the order of two texts comes out.
#[derive(Debug, Clone, Copy, PartialEq, Eq, Structural)]
enum TextOrder {
    Less,
    Same,
    Greater,
}

proof fn text_less_skips(a: Seq<char>, b: Seq<char>, n: int)
    requires
        0 <= n <= a.len(),
        n <= b.len(),
        forall|i: int| 0 <= i < n ==> a[i] == b[i],
    ensures
        text_less(a, b) == text_less(a.skip(n), b.skip(n)),
    decreases n,
{
    if n > 0 {
        assert forall|i: int| 0 <= i < n - 1 implies a.skip(1)[i] == b.skip(1)[i] by {
            assert(a[i + 1] == b[i + 1]);
        }
        text_less_skips(a.skip(1), b.skip(1), n - 1);
        assert(a.skip(1).skip(n - 1) =~= a.skip(n));
        assert(b.skip(1).skip(n - 1) =~= b.skip(n));
    } else {
        assert(a.skip(0) =~= a);
        assert(b.skip(0) =~= b);
    }
}

fn order_texts(a: &str, b: &str) -> (order: TextOrder)
    ensures
        (order == TextOrder::Less) == text_less(a@, b@),
        (order == TextOrder::Greater) == text_less(b@, a@),
        (order == TextOrder::Same) == (a@ == b@),
{
    let left = chars_of(a);
    let right = chars_of(b);
    let mut i: usize = 0;
    while i < left.len() && i < right.len() && left[i] == right[i]
        invariant
            i <= left@.len(),
            i <= right@.len(),
            left@ == a@,
            right@ == b@,
            forall|j: int| 0 <= j < i ==> left@[j] == right@[j],
        decreases left@.len() - i,
    {
        i = i + 1;
    }
    proof {
        text_less_skips(a@, b@, i as int);
        text_less_skips(b@, a@, i as int);
    }
    if i == left.len() && i == right.len() {
        assert(a@ =~= b@);
        TextOrder::Same
    } else if i == left.len() {
        TextOrder::Less
    } else if i == right.len() {
        TextOrder::Greater
    } else if left[i] < right[i] {
        TextOrder::Less
    } else {
        TextOrder::Greater
    }
}

/// The parts of a path that name something.
pub open spec fn named_parts(parts: Seq<Seq<char>>) -> Seq<Seq<char>>
    decreases parts.len(),
{
    if parts.len() == 0 {
        seq![]
    } else if parts.last().len() == 0 {
        named_parts(parts.drop_last())
    } else {
        named_parts(parts.drop_last()).push(parts.last())
    }
}

/// A path as an item of the tree.
pub open spec fn item_of(path: Seq<char>, index: int) -> ItemView {
    let parts = named_parts(pieces(path, '/'));
    if parts.len() == 0 {
        ItemView { dirs: seq![], name: path, index }
    } else {
        ItemView { dirs: parts.drop_last(), name: parts.last(), index }
    }
}

fn tree_item(path: &str, index: usize) -> (item: TreeItem)
    ensures
        item@ == item_of(path@, index as int),
{
    let parts = split(path, '/');
    let ghost all = texts(parts@);
    let mut named: Vec<String> = Vec::new();
    let mut i: usize = 0;
    assert(all.take(0) =~= seq![]);
    assert(texts(named@) =~= seq![]);
    while i < parts.len()
        invariant
            i <= parts@.len(),
            all == texts(parts@),
            texts(named@) == named_parts(all.take(i as int)),
        decreases parts@.len() - i,
    {
        assert(all.take(i + 1).drop_last() =~= all.take(i as int));
        assert(all.take(i + 1).last() == parts@[i as int]@);
        if !parts[i].as_str().is_empty() {
            let ghost before = named@;
            named.push(parts[i].clone());
            assert(texts(named@) =~= texts(before).push(parts@[i as int]@));
        }
        i = i + 1;
    }
    assert(all.take(all.len() as int) =~= all);
    let ghost named_all = texts(named@);
    match named.pop() {
        Some(name) => {
            assert(named_all.last() == name@);
            assert(texts(named@) =~= named_all.drop_last());
            TreeItem { dirs: named, name, index }
        },
        None => {
            assert(texts(named@) =~= seq![]);
            TreeItem { dirs: named, name: path.to_owned(), index }
        },
    }
}

/// Position among the first `n` names behind the last one that stands before a
/// name.
pub open spec fn name_place(names: Seq<Seq<char>>, name: Seq<char>, n: int) -> int
    decreases n,
{
    if n <= 0 {
        0
    } else if text_less(names[n - 1], name) {
        n
    } else {
        name_place(names, name, n - 1)
    }
}

/// The sorted names with one more, unless it is there.
pub open spec fn with_name(names: Seq<Seq<char>>, name: Seq<char>) -> Seq<Seq<char>> {
    if names.contains(name) {
        names
    } else {
        names.insert(name_place(names, name, names.len() as int), name)
    }
}

/// The names of the folders right below, in order.
pub open spec fn folder_names(items: Seq<ItemView>) -> Seq<Seq<char>>
    decreases items.len(),
{
    if items.len() == 0 {
        seq![]
    } else if items.last().dirs.len() == 0 {
        folder_names(items.drop_last())
    } else {
        with_name(folder_names(items.drop_last()), items.last().dirs[0])
    }
}

/// The items in a folder right below, seen from that folder.
pub open spec fn items_in(items: Seq<ItemView>, name: Seq<char>) -> Seq<ItemView>
    decreases items.len(),
{
    if items.len() == 0 {
        seq![]
    } else {
        let item = items.last();
        let before = items_in(items.drop_last(), name);
        if item.dirs.len() > 0 && item.dirs[0] == name {
            before.push(ItemView { dirs: item.dirs.skip(1), ..item })
        } else {
            before
        }
    }
}

/// Whether an item stands before another: by name, then by position.
pub open spec fn item_less(a: ItemView, b: ItemView) -> bool {
    text_less(a.name, b.name) || (a.name == b.name && a.index < b.index)
}

/// Position among the first `n` items behind the last one that stands before an
/// item.
pub open spec fn item_place(sorted: Seq<ItemView>, item: ItemView, n: int) -> int
    decreases n,
{
    if n <= 0 {
        0
    } else if item_less(sorted[n - 1], item) {
        n
    } else {
        item_place(sorted, item, n - 1)
    }
}

/// The items right here, which stand in no further folder, in order.
pub open spec fn files_here(items: Seq<ItemView>) -> Seq<ItemView>
    decreases items.len(),
{
    if items.len() == 0 {
        seq![]
    } else {
        let before = files_here(items.drop_last());
        if items.last().dirs.len() == 0 {
            before.insert(
                item_place(before, items.last(), before.len() as int),
                items.last(),
            )
        } else {
            before
        }
    }
}

/// Number of folders on the ways to all items.
pub open spec fn way_count(items: Seq<ItemView>) -> nat
    decreases items.len(),
{
    if items.len() == 0 {
        0
    } else {
        way_count(items.drop_last()) + items.last().dirs.len()
    }
}

pub open spec fn child_path_of(prefix: Seq<char>, name: Seq<char>) -> Seq<char> {
    if prefix.len() == 0 { name } else { prefix + "/"@ + name }
}

/// The rows of a tree: the folders with what is in them, unless they are
/// collapsed, then the files.
pub open spec fn tree_entries(
    items: Seq<ItemView>,
    prefix: Seq<char>,
    depth: int,
    collapsed: Set<Seq<char>>,
) -> Seq<EntryView>
    decreases way_count(items), 1int, 0int,
{
    folder_entries(items, prefix, depth, collapsed, 0) + file_entries(files_here(items), depth)
}

pub open spec fn file_entries(files: Seq<ItemView>, depth: int) -> Seq<EntryView> {
    files.map_values(|item: ItemView| EntryView::File { index: item.index, depth })
}

/// The rows of the folders from the `k`th on.
pub open spec fn folder_entries(
    items: Seq<ItemView>,
    prefix: Seq<char>,
    depth: int,
    collapsed: Set<Seq<char>>,
    k: int,
) -> Seq<EntryView>
    decreases way_count(items), 0int, folder_names(items).len() - k,
    via folder_entries_decreases
{
    let names = folder_names(items);
    if k < 0 || k >= names.len() {
        seq![]
    } else {
        let path = child_path_of(prefix, names[k]);
        let expanded = !collapsed.contains(path);
        let below = if expanded {
            tree_entries(items_in(items, names[k]), path, depth + 1, collapsed)
        } else {
            seq![]
        };
        seq![EntryView::Folder { path, name: names[k], depth, expanded }] + below
            + folder_entries(items, prefix, depth, collapsed, k + 1)
    }
}

#[via_fn]
proof fn folder_entries_decreases(
    items: Seq<ItemView>,
    prefix: Seq<char>,
    depth: int,
    collapsed: Set<Seq<char>>,
    k: int,
) {
    let names = folder_names(items);
    if 0 <= k < names.len() {
        folder_names_lead(items, names[k]);
        items_in_shrink(items, names[k]);
    }
}

/// Every folder name is the first one on the way to some item, and every item in
/// a folder has its folder's name listed.
proof fn folder_names_lead(items: Seq<ItemView>, name: Seq<char>)
    ensures
        folder_names(items).contains(name) <==> leads(items, name),
    decreases items.len(),
{
    if items.len() > 0 {
        let front = items.drop_last();
        folder_names_lead(front, name);
        if leads(front, name) {
            let i = choose|i: int|
                0 <= i < front.len() && (#[trigger] front[i]).dirs.len() > 0 && front[i].dirs[0]
                    == name;
            assert(items[i] == front[i]);
        }
        if leads(items, name) {
            let i = choose|i: int|
                0 <= i < items.len() && (#[trigger] items[i]).dirs.len() > 0 && items[i].dirs[0]
                    == name;
            if i < front.len() {
                assert(front[i] == items[i]);
            }
        }
        if items.last().dirs.len() > 0 {
            assert(items[items.len() - 1] == items.last());
            with_name_contains(folder_names(front), items.last().dirs[0], name);
        }
    }
}

pub open spec fn leads(items: Seq<ItemView>, name: Seq<char>) -> bool {
    exists|i: int|
        0 <= i < items.len() && (#[trigger] items[i]).dirs.len() > 0 && items[i].dirs[0] == name
}

proof fn name_place_bounds(names: Seq<Seq<char>>, name: Seq<char>, n: int)
    requires
        0 <= n,
    ensures
        0 <= name_place(names, name, n) <= n,
    decreases n,
{
    if n > 0 {
        name_place_bounds(names, name, n - 1);
    }
}

proof fn with_name_contains(names: Seq<Seq<char>>, name: Seq<char>, other: Seq<char>)
    ensures
        with_name(names, name).contains(other) <==> names.contains(other) || other == name,
{
    if !names.contains(name) {
        let at = name_place(names, name, names.len() as int);
        name_place_bounds(names, name, names.len() as int);
        let more = names.insert(at, name);
        assert(more[at] == name);
        if names.contains(other) {
            let i = choose|i: int| 0 <= i < names.len() && names[i] == other;
            assert(more[if i < at { i } else { i + 1 }] == other);
        }
        if more.contains(other) {
            let i = choose|i: int| 0 <= i < more.len() && more[i] == other;
            if i != at {
                assert(names[if i < at { i } else { i - 1 }] == other);
            }
        }
    }
}

proof fn items_in_shrink(items: Seq<ItemView>, name: Seq<char>)
    ensures
        way_count(items_in(items, name)) <= way_count(items),
        leads(items, name) ==> way_count(items_in(items, name)) < way_count(items),
    decreases items.len(),
{
    if items.len() > 0 {
        let front = items.drop_last();
        items_in_shrink(front, name);
        let item = items.last();
        if item.dirs.len() > 0 && item.dirs[0] == name {
            let moved = ItemView { dirs: item.dirs.skip(1), ..item };
            assert(items_in(items, name).drop_last() =~= items_in(front, name));
        } else if leads(items, name) {
            let i = choose|i: int|
                0 <= i < items.len() && (#[trigger] items[i]).dirs.len() > 0 && items[i].dirs[0]
                    == name;
            assert(front[i] == items[i]);
        }
    }
}

fn child_path(prefix: &str, name: &str) -> (path: String)
    ensures
        path@ == child_path_of(prefix@, name@),
{
    if prefix.is_empty() { name.to_owned() } else { cat3(prefix, "/", name) }
}

fn list_folder_names(items: &Vec<TreeItem>) -> (names: Vec<String>)
    ensures
        texts(names@) == folder_names(item_views(items@)),
{
    let ghost all = item_views(items@);
    let mut names: Vec<String> = Vec::new();
    let mut i: usize = 0;
    assert(all.take(0) =~= seq![]);
    assert(texts(names@) =~= seq![]);
    while i < items.len()
        invariant
            i <= items@.len(),
            all == item_views(items@),
            texts(names@) == folder_names(all.take(i as int)),
        decreases items@.len() - i,
    {
        assert(all.take(i + 1).drop_last() =~= all.take(i as int));
        assert(all.take(i + 1).last() == items@[i as int]@);
        assert(items@[i as int]@.dirs.len() == items@[i as int].dirs@.len());
        if items[i].dirs.len() > 0 {
            assert(items@[i as int]@.dirs[0] == items@[i as int].dirs@[0]@);
            insert_name(&mut names, items[i].dirs[0].as_str());
        }
        i = i + 1;
    }
    assert(all.take(all.len() as int) =~= all);
    names
}

fn insert_name(names: &mut Vec<String>, name: &str)
    ensures
        texts(final(names)@) == with_name(texts(old(names)@), name@),
{
    let ghost views = texts(names@);
    let mut i: usize = 0;
    while i < names.len()
        invariant
            i <= names@.len(),
            views == texts(names@),
            *names == *old(names),
            forall|j: int| 0 <= j < i ==> #[trigger] views[j] != name@,
        decreases names@.len() - i,
    {
        assert(views[i as int] == names@[i as int]@);
        if same(names[i].as_str(), name) {
            return;
        }
        i = i + 1;
    }
    assert(!views.contains(name@));
    let mut place: usize = names.len();
    while place > 0 && order_texts(names[place - 1].as_str(), name) != TextOrder::Less
        invariant
            place <= names@.len(),
            views == texts(names@),
            *names == *old(names),
            name_place(views, name@, views.len() as int) == name_place(
                views,
                name@,
                place as int,
            ),
        decreases place,
    {
        assert(views[place - 1] == names@[place - 1]@);
        place = place - 1;
    }
    assert(place > 0 ==> views[place - 1] == names@[place - 1]@);
    names.insert(place, name.to_owned());
    assert(texts(names@) =~= views.insert(place as int, name@));
}

fn items_of_folder(items: &Vec<TreeItem>, name: &str) -> (inside: Vec<TreeItem>)
    ensures
        item_views(inside@) == items_in(item_views(items@), name@),
{
    let ghost all = item_views(items@);
    let mut inside: Vec<TreeItem> = Vec::new();
    let mut i: usize = 0;
    assert(all.take(0) =~= seq![]);
    assert(item_views(inside@) =~= seq![]);
    while i < items.len()
        invariant
            i <= items@.len(),
            all == item_views(items@),
            item_views(inside@) == items_in(all.take(i as int), name@),
        decreases items@.len() - i,
    {
        let item = &items[i];
        assert(all.take(i + 1).drop_last() =~= all.take(i as int));
        assert(all.take(i + 1).last() == item@);
        assert(item@.dirs.len() == item.dirs@.len());
        if item.dirs.len() > 0 {
            assert(item@.dirs[0] == item.dirs@[0]@);
            if same(item.dirs[0].as_str(), name) {
                let mut dirs = item.dirs.clone();
                assert(texts(dirs@) =~= texts(item.dirs@));
                let ghost long = texts(dirs@);
                let _ = dirs.remove(0);
                assert(texts(dirs@) =~= long.skip(1));
                let moved = TreeItem { dirs, name: item.name.clone(), index: item.index };
                let ghost before = inside@;
                inside.push(moved);
                assert(item_views(inside@) =~= item_views(before).push(moved@));
            }
        }
        i = i + 1;
    }
    assert(all.take(all.len() as int) =~= all);
    inside
}

/// Positions, in a list of items, of those right here, in order.
fn list_files_here(items: &Vec<TreeItem>) -> (files: Vec<usize>)
    ensures
        forall|i: int| 0 <= i < files@.len() ==> #[trigger] files@[i] < items@.len(),
        files@.map_values(|at: usize| item_views(items@)[at as int]) == files_here(
            item_views(items@),
        ),
{
    let ghost all = item_views(items@);
    let mut files: Vec<usize> = Vec::new();
    let mut i: usize = 0;
    assert(all.take(0) =~= seq![]);
    assert(files@.map_values(|at: usize| all[at as int]) =~= seq![]);
    while i < items.len()
        invariant
            i <= items@.len(),
            all == item_views(items@),
            forall|j: int| 0 <= j < files@.len() ==> #[trigger] files@[j] < items@.len(),
            files@.map_values(|at: usize| all[at as int]) == files_here(all.take(i as int)),
        decreases items@.len() - i,
    {
        assert(all.take(i + 1).drop_last() =~= all.take(i as int));
        assert(all.take(i + 1).last() == items@[i as int]@);
        assert(items@[i as int]@.dirs.len() == items@[i as int].dirs@.len());
        if items[i].dirs.len() == 0 {
            let ghost sorted = files@.map_values(|at: usize| all[at as int]);
            let mut place: usize = files.len();
            while place > 0 && !item_before(&items[files[place - 1]], &items[i])
                invariant
                    place <= files@.len(),
                    i < items@.len(),
                    all == item_views(items@),
                    sorted == files@.map_values(|at: usize| all[at as int]),
                    forall|j: int| 0 <= j < files@.len() ==> #[trigger] files@[j] < items@.len(),
                    item_place(sorted, items@[i as int]@, sorted.len() as int) == item_place(
                        sorted,
                        items@[i as int]@,
                        place as int,
                    ),
                decreases place,
            {
                assert(sorted[place - 1] == items@[files@[place - 1] as int]@);
                place = place - 1;
            }
            assert(place > 0 ==> sorted[place - 1] == items@[files@[place - 1] as int]@);
            let ghost before = files@;
            files.insert(place, i);
            assert(files@.map_values(|at: usize| all[at as int]) =~= sorted.insert(
                place as int,
                items@[i as int]@,
            ));
            assert forall|j: int| 0 <= j < files@.len() implies #[trigger] files@[j]
                < items@.len() by {
                if j < place {
                    assert(files@[j] == before[j]);
                } else if j > place {
                    assert(files@[j] == before[j - 1]);
                }
            }
        }
        i = i + 1;
    }
    assert(all.take(all.len() as int) =~= all);
    files
}

fn item_before(a: &TreeItem, b: &TreeItem) -> (before: bool)
    ensures
        before == item_less(a@, b@),
{
    match order_texts(a.name.as_str(), b.name.as_str()) {
        TextOrder::Less => true,
        TextOrder::Same => {
            proof {
                text_less_irreflexive(a@.name);
            }
            a.index < b.index
        },
        TextOrder::Greater => false,
    }
}

proof fn text_less_irreflexive(a: Seq<char>)
    ensures
        !text_less(a, a),
    decreases a.len(),
{
    if a.len() > 0 {
        text_less_irreflexive(a.skip(1));
    }
}

/// Whether the ways to all items are short enough to count from a depth on.
spec fn depth_fits(items: Seq<ItemView>, depth: int) -> bool {
    forall|i: int|
        0 <= i < items.len() ==> depth + (#[trigger] items[i]).dirs.len() <= usize::MAX
}

proof fn items_in_depth_fits(items: Seq<ItemView>, name: Seq<char>, depth: int)
    requires
        depth_fits(items, depth),
    ensures
        depth_fits(items_in(items, name), depth + 1),
    decreases items.len(),
{
    if items.len() > 0 {
        let front = items.drop_last();
        assert forall|i: int| 0 <= i < front.len() implies depth + (
        #[trigger] front[i]).dirs.len() <= usize::MAX by {
            assert(front[i] == items[i]);
        }
        items_in_depth_fits(front, name, depth);
        let item = items.last();
        assert(items[items.len() - 1] == item);
        let inside = items_in(items, name);
        let before = items_in(front, name);
        assert forall|i: int| 0 <= i < inside.len() implies depth + 1 + (
        #[trigger] inside[i]).dirs.len() <= usize::MAX by {
            if i < before.len() {
                assert(inside[i] == before[i]);
            }
        }
    }
}

proof fn leading_depth_fits(items: Seq<ItemView>, name: Seq<char>, depth: int)
    requires
        depth_fits(items, depth),
        leads(items, name),
    ensures
        depth + 1 <= usize::MAX,
{
    let i = choose|i: int|
        0 <= i < items.len() && (#[trigger] items[i]).dirs.len() > 0 && items[i].dirs[0] == name;
    assert(depth + items[i].dirs.len() <= usize::MAX);
}

/// Appends the rows of a tree.
fn flatten(
    items: &Vec<TreeItem>,
    prefix: &str,
    depth: usize,
    collapsed_dirs: &PathSet,
    entries: &mut Vec<SidebarEntry>,
)
    requires
        depth_fits(item_views(items@), depth as int),
    ensures
        entry_views(final(entries)@) == entry_views(old(entries)@) + tree_entries(
            item_views(items@),
            prefix@,
            depth as int,
            collapsed_dirs@,
        ),
    decreases way_count(item_views(items@)),
{
    let ghost all = item_views(items@);
    let ghost collapsed = collapsed_dirs@;
    let ghost before = entry_views(entries@);
    let names = list_folder_names(items);
    let ghost views = texts(names@);
    let ghost folders = folder_entries(all, prefix@, depth as int, collapsed, 0);
    let mut k: usize = 0;
    while k < names.len()
        invariant
            k <= names@.len(),
            all == item_views(items@),
            collapsed == collapsed_dirs@,
            views == texts(names@),
            views == folder_names(all),
            depth_fits(all, depth as int),
            entry_views(entries@) + folder_entries(all, prefix@, depth as int, collapsed, k as int)
                == before + folders,
        decreases names@.len() - k,
    {
        let name = names[k].as_str();
        let path = child_path(prefix, name);
        let expanded = !collapsed_dirs.contains(path.as_str());
        proof {
            assert(views[k as int] == name@);
            assert(views.contains(name@));
            folder_names_lead(all, name@);
            items_in_shrink(all, name@);
            items_in_depth_fits(all, name@, depth as int);
            leading_depth_fits(all, name@, depth as int);
        }
        let ghost shown = entry_views(entries@);
        let entry = SidebarEntry::Folder {
            path: path.clone(),
            name: names[k].clone(),
            depth,
            expanded,
        };
        entries.push(entry);
        let ghost with_folder = entry_views(entries@);
        assert(with_folder =~= shown.push(entry@));
        if expanded {
            let inside = items_of_folder(items, name);
            flatten(&inside, path.as_str(), depth + 1, collapsed_dirs, entries);
        }
        proof {
            let below = if expanded {
                tree_entries(items_in(all, name@), path@, depth + 1, collapsed)
            } else {
                seq![]
            };
            let rest = folder_entries(all, prefix@, depth as int, collapsed, k + 1);
            assert(entry_views(entries@) =~= with_folder + below);
            assert(shown + (seq![entry@] + below + rest) =~= with_folder + below + rest);
        }
        k = k + 1;
    }
    assert(entry_views(entries@) =~= before + folders);
    let files = list_files_here(items);
    let ghost here = files_here(all);
    let ghost file_rows = file_entries(here, depth as int);
    let mut f: usize = 0;
    assert(file_rows.take(0) =~= seq![]);
    assert(entry_views(entries@) =~= before + folders + file_rows.take(0));
    while f < files.len()
        invariant
            f <= files@.len(),
            all == item_views(items@),
            here == files_here(all),
            file_rows == file_entries(here, depth as int),
            files@.map_values(|at: usize| all[at as int]) == here,
            forall|j: int| 0 <= j < files@.len() ==> #[trigger] files@[j] < items@.len(),
            entry_views(entries@) == before + folders + file_rows.take(f as int),
        decreases files@.len() - f,
    {
        let item = &items[files[f]];
        assert(here[f as int] == item@) by {
            assert(files@.map_values(|at: usize| all[at as int])[f as int] == all[files@[f as int] as int]);
        }
        let ghost shown = entry_views(entries@);
        let entry = SidebarEntry::File { index: item.index, depth };
        entries.push(entry);
        assert(entry_views(entries@) =~= shown.push(entry@));
        assert(file_rows.take(f + 1) =~= file_rows.take(f as int).push(entry@));
        assert(shown.push(entry@) =~= before + folders + file_rows.take(f + 1));
        f = f + 1;
    }
    assert(files@.len() == here.len()) by {
        assert(files@.map_values(|at: usize| all[at as int]).len() == files@.len());
    }
    assert(file_rows.take(f as int) =~= file_rows);
    assert(entry_views(entries@) =~= before + (folders + file_rows));
}

/// The files of a review as items of the tree.
pub open spec fn review_items(files: Seq<FileView>) -> Seq<ItemView> {
    Seq::new(files.len(), |i: int| item_of(files[i].shown_path(), i))
}

/// The rows of the tree of the files of a review.
pub open spec fn review_entries(files: Seq<FileView>, collapsed: Set<Seq<char>>) -> Seq<
    EntryView,
> {
    tree_entries(review_items(files), seq![], 0, collapsed)
}

pub fn sidebar_entries(files: &Vec<DiffFile>, collapsed_dirs: &PathSet) -> (entries: Vec<
    SidebarEntry,
>)
    ensures
        entry_views(entries@) == review_entries(file_views(files@), collapsed_dirs@),
{
    let ghost views = file_views(files@);
    let ghost wanted = review_items(views);
    let mut items: Vec<TreeItem> = Vec::new();
    let mut i: usize = 0;
    while i < files.len()
        invariant
            i <= files@.len(),
            views == file_views(files@),
            wanted == review_items(views),
            items@.len() == i,
            item_views(items@) == wanted.take(i as int),
            forall|j: int|
                0 <= j < items@.len() ==> (#[trigger] items@[j]).dirs@.len() <= usize::MAX,
        decreases files@.len() - i,
    {
        assert(views[i as int] == files@[i as int]@);
        let item = tree_item(files[i].display_path(), i);
        let _ = item.dirs.len();
        let ghost before = items@;
        items.push(item);
        i = i + 1;
        assert(item_views(items@) =~= wanted.take(i as int));
    }
    assert(wanted.take(wanted.len() as int) =~= wanted);
    let mut entries: Vec<SidebarEntry> = Vec::new();
    assert forall|j: int| 0 <= j < wanted.len() implies (#[trigger] wanted[j]).dirs.len()
        <= usize::MAX by {
        assert(wanted[j] == item_views(items@)[j]);
        assert(items@[j].dirs@.len() <= usize::MAX);
    }
    let root = String::new();
    assert(root@ =~= seq![]);
    flatten(&items, root.as_str(), 0, collapsed_dirs, &mut entries);
    assert(entry_views(entries@) =~= review_entries(views, collapsed_dirs@));
    entries
}

impl SidebarEntry {
    pub fn target(&self) -> (target: SidebarRowTarget)
        ensures
            target@ == self@.target(),
    {
        match self {
            SidebarEntry::Folder { path, .. } => SidebarRowTarget::Folder(path.clone()),
            SidebarEntry::File { index, .. } => SidebarRowTarget::File(*index),
        }
    }

    pub fn matches_target(&self, target: &SidebarRowTarget) -> (matches: bool)
        ensures
            matches == (self@.target() == target@),
    {
        match (self, target) {
            (SidebarEntry::Folder { path, .. }, SidebarRowTarget::Folder(target_path)) => same(
                path.as_str(),
                target_path.as_str(),
            ),
            (SidebarEntry::File { index, .. }, SidebarRowTarget::File(target_index)) => *index
                == *target_index,
            _ => false,
        }
    }
}


/// Whether no folder on the way to an item is collapsed.
pub open spec fn uncovered(item: ItemView, prefix: Seq<char>, collapsed: Set<Seq<char>>) -> bool
    decreases item.dirs.len(),
{
    item.dirs.len() == 0 || (!collapsed.contains(child_path_of(prefix, item.dirs[0]))
        && uncovered(
        ItemView { dirs: item.dirs.skip(1), ..item },
        child_path_of(prefix, item.dirs[0]),
        collapsed,
    ))
}

/// Number of rows that stand for a file.
pub open spec fn file_rows(entries: Seq<EntryView>, index: int) -> nat
    decreases entries.len(),
{
    if entries.len() == 0 {
        0
    } else {
        file_rows(entries.drop_last(), index) + if entries.last().target() == TargetView::File(
            index,
        ) {
            1nat
        } else {
            0
        }
    }
}

spec fn one(holds: bool) -> nat {
    if holds { 1 } else { 0 }
}

/// Number of uncovered items of a file, of all items or of those in the folder
/// `name` right below or of those right here.
spec fn uncovered_count(
    items: Seq<ItemView>,
    prefix: Seq<char>,
    collapsed: Set<Seq<char>>,
    index: int,
    place: Place,
) -> nat
    decreases items.len(),
{
    if items.len() == 0 {
        0
    } else {
        let item = items.last();
        uncovered_count(items.drop_last(), prefix, collapsed, index, place) + one(
            item.index == index && uncovered(item, prefix, collapsed) && (match place {
                Place::Anywhere => true,
                Place::Here => item.dirs.len() == 0,
                Place::Below => item.dirs.len() > 0,
                Place::In(name) => item.dirs.len() > 0 && item.dirs[0] == name,
            }),
        )
    }
}

enum Place {
    Anywhere,
    Here,
    Below,
    In(Seq<char>),
}

proof fn file_rows_append(a: Seq<EntryView>, b: Seq<EntryView>, index: int)
    ensures
        file_rows(a + b, index) == file_rows(a, index) + file_rows(b, index),
    decreases b.len(),
{
    if b.len() == 0 {
        assert(a + b =~= a);
    } else {
        assert((a + b).drop_last() =~= a + b.drop_last());
        file_rows_append(a, b.drop_last(), index);
    }
}

proof fn uncovered_count_splits(
    items: Seq<ItemView>,
    prefix: Seq<char>,
    collapsed: Set<Seq<char>>,
    index: int,
)
    ensures
        uncovered_count(items, prefix, collapsed, index, Place::Anywhere) == uncovered_count(
            items,
            prefix,
            collapsed,
            index,
            Place::Here,
        ) + uncovered_count(items, prefix, collapsed, index, Place::Below),
    decreases items.len(),
{
    if items.len() > 0 {
        uncovered_count_splits(items.drop_last(), prefix, collapsed, index);
    }
}

/// What is in a folder right below counts the same seen from the folder.
proof fn folder_count_moves(
    items: Seq<ItemView>,
    prefix: Seq<char>,
    collapsed: Set<Seq<char>>,
    index: int,
    name: Seq<char>,
)
    ensures
        ({
            let path = child_path_of(prefix, name);
            let inside = uncovered_count(items, prefix, collapsed, index, Place::In(name));
            if collapsed.contains(path) {
                inside == 0
            } else {
                inside == uncovered_count(
                    items_in(items, name),
                    path,
                    collapsed,
                    index,
                    Place::Anywhere,
                )
            }
        }),
    decreases items.len(),
{
    if items.len() > 0 {
        let front = items.drop_last();
        folder_count_moves(front, prefix, collapsed, index, name);
        let item = items.last();
        if item.dirs.len() > 0 && item.dirs[0] == name {
            assert(items_in(items, name).drop_last() =~= items_in(front, name));
        }
    }
}

/// Sum over the first `n` names of the uncovered items in their folders.
spec fn folders_count(
    items: Seq<ItemView>,
    prefix: Seq<char>,
    collapsed: Set<Seq<char>>,
    index: int,
    names: Seq<Seq<char>>,
    n: int,
) -> nat
    decreases n,
{
    if n <= 0 {
        0
    } else {
        folders_count(items, prefix, collapsed, index, names, n - 1) + uncovered_count(
            items,
            prefix,
            collapsed,
            index,
            Place::In(names[n - 1]),
        )
    }
}

proof fn folders_count_grows(
    items: Seq<ItemView>,
    prefix: Seq<char>,
    collapsed: Set<Seq<char>>,
    index: int,
    names: Seq<Seq<char>>,
    n: int,
)
    requires
        items.len() > 0,
        names.no_duplicates(),
        0 <= n <= names.len(),
    ensures
        ({
            let item = items.last();
            let here = item.dirs.len() > 0 && (exists|k: int|
                0 <= k < n && #[trigger] names[k] == item.dirs[0]);
            folders_count(items, prefix, collapsed, index, names, n) == folders_count(
                items.drop_last(),
                prefix,
                collapsed,
                index,
                names,
                n,
            ) + one(item.index == index && uncovered(item, prefix, collapsed) && here)
        }),
    decreases n,
{
    if n > 0 {
        folders_count_grows(items, prefix, collapsed, index, names, n - 1);
        let item = items.last();
        if item.dirs.len() > 0 {
            let d = item.dirs[0];
            if names[n - 1] == d {
                assert(forall|k: int| 0 <= k < n - 1 ==> #[trigger] names[k] != d);
            } else if exists|k: int| 0 <= k < n && #[trigger] names[k] == d {
                let k = choose|k: int| 0 <= k < n && #[trigger] names[k] == d;
                assert(0 <= k < n - 1 && names[k] == d);
            }
        }
    }
}

proof fn folders_count_all(
    items: Seq<ItemView>,
    prefix: Seq<char>,
    collapsed: Set<Seq<char>>,
    index: int,
    names: Seq<Seq<char>>,
)
    requires
        names.no_duplicates(),
        forall|i: int|
            0 <= i < items.len() && (#[trigger] items[i]).dirs.len() > 0 ==> names.contains(
                items[i].dirs[0],
            ),
    ensures
        folders_count(items, prefix, collapsed, index, names, names.len() as int)
            == uncovered_count(items, prefix, collapsed, index, Place::Below),
    decreases items.len(),
{
    if items.len() == 0 {
        folders_count_none(items, prefix, collapsed, index, names, names.len() as int);
    } else {
        let front = items.drop_last();
        assert forall|i: int|
            0 <= i < front.len() && (#[trigger] front[i]).dirs.len() > 0 implies names.contains(
            front[i].dirs[0],
        ) by {
            assert(front[i] == items[i]);
        }
        folders_count_all(front, prefix, collapsed, index, names);
        folders_count_grows(items, prefix, collapsed, index, names, names.len() as int);
        let item = items.last();
        if item.dirs.len() > 0 {
            assert(items[items.len() - 1] == item);
            let k = choose|k: int| 0 <= k < names.len() && names[k] == item.dirs[0];
            assert(names[k] == item.dirs[0]);
        }
    }
}

proof fn folders_count_none(
    items: Seq<ItemView>,
    prefix: Seq<char>,
    collapsed: Set<Seq<char>>,
    index: int,
    names: Seq<Seq<char>>,
    n: int,
)
    requires
        items.len() == 0,
    ensures
        folders_count(items, prefix, collapsed, index, names, n) == 0,
    decreases n,
{
    if n > 0 {
        folders_count_none(items, prefix, collapsed, index, names, n - 1);
    }
}

proof fn folder_names_distinct(items: Seq<ItemView>)
    ensures
        folder_names(items).no_duplicates(),
    decreases items.len(),
{
    if items.len() > 0 {
        folder_names_distinct(items.drop_last());
        let names = folder_names(items.drop_last());
        if items.last().dirs.len() > 0 && !names.contains(items.last().dirs[0]) {
            let name = items.last().dirs[0];
            let at = name_place(names, name, names.len() as int);
            name_place_bounds(names, name, names.len() as int);
            let more = names.insert(at, name);
            assert forall|i: int, j: int|
                0 <= i < more.len() && 0 <= j < more.len() && i != j implies more[i] != more[j] by {
                let a = if i < at { i } else { i - 1 };
                let b = if j < at { j } else { j - 1 };
                if i == at {
                    assert(names[b] == more[j]);
                } else if j == at {
                    assert(names[a] == more[i]);
                } else {
                    assert(names[a] == more[i] && names[b] == more[j]);
                }
            }
        }
    }
}

proof fn item_place_bounds(sorted: Seq<ItemView>, item: ItemView, n: int)
    requires
        0 <= n,
    ensures
        0 <= item_place(sorted, item, n) <= n,
    decreases n,
{
    if n > 0 {
        item_place_bounds(sorted, item, n - 1);
    }
}

proof fn files_here_counted(
    items: Seq<ItemView>,
    prefix: Seq<char>,
    collapsed: Set<Seq<char>>,
    index: int,
    depth: int,
)
    ensures
        file_rows(file_entries(files_here(items), depth), index) == uncovered_count(
            items,
            prefix,
            collapsed,
            index,
            Place::Here,
        ),
    decreases items.len(),
{
    if items.len() == 0 {
        assert(file_entries(files_here(items), depth) =~= seq![]);
    } else {
        files_here_counted(items.drop_last(), prefix, collapsed, index, depth);
        let before = files_here(items.drop_last());
        let item = items.last();
        if item.dirs.len() == 0 {
            let at = item_place(before, item, before.len() as int);
            item_place_bounds(before, item, before.len() as int);
            let rows = file_entries(before, depth);
            let row = EntryView::File { index: item.index, depth };
            let left = rows.take(at);
            let right = rows.skip(at);
            assert(rows =~= left + right);
            assert(file_entries(files_here(items), depth) =~= left.push(row) + right);
            file_rows_append(left, right, index);
            file_rows_append(left.push(row), right, index);
            assert(left.push(row).drop_last() =~= left);
        }
    }
}

proof fn tree_rows_counted(
    items: Seq<ItemView>,
    prefix: Seq<char>,
    depth: int,
    collapsed: Set<Seq<char>>,
    index: int,
)
    ensures
        file_rows(tree_entries(items, prefix, depth, collapsed), index) == uncovered_count(
            items,
            prefix,
            collapsed,
            index,
            Place::Anywhere,
        ),
    decreases way_count(items), 1int, 0int,
{
    let names = folder_names(items);
    folder_rows_counted(items, prefix, depth, collapsed, index, 0);
    files_here_counted(items, prefix, collapsed, index, depth);
    folder_names_distinct(items);
    assert forall|i: int|
        0 <= i < items.len() && (#[trigger] items[i]).dirs.len() > 0 implies names.contains(
        items[i].dirs[0],
    ) by {
        folder_names_lead(items, items[i].dirs[0]);
    }
    folders_count_all(items, prefix, collapsed, index, names);
    uncovered_count_splits(items, prefix, collapsed, index);
    file_rows_append(
        folder_entries(items, prefix, depth, collapsed, 0),
        file_entries(files_here(items), depth),
        index,
    );
}

proof fn folder_rows_counted(
    items: Seq<ItemView>,
    prefix: Seq<char>,
    depth: int,
    collapsed: Set<Seq<char>>,
    index: int,
    k: int,
)
    requires
        0 <= k <= folder_names(items).len(),
    ensures
        file_rows(folder_entries(items, prefix, depth, collapsed, k), index) + folders_count(
            items,
            prefix,
            collapsed,
            index,
            folder_names(items),
            k,
        ) == folders_count(
            items,
            prefix,
            collapsed,
            index,
            folder_names(items),
            folder_names(items).len() as int,
        ),
    decreases way_count(items), 0int, folder_names(items).len() - k,
{
    let names = folder_names(items);
    if k < names.len() {
        let name = names[k];
        let path = child_path_of(prefix, name);
        let expanded = !collapsed.contains(path);
        assert(names.contains(name));
        folder_names_lead(items, name);
        items_in_shrink(items, name);
        folder_rows_counted(items, prefix, depth, collapsed, index, k + 1);
        folder_count_moves(items, prefix, collapsed, index, name);
        let below = if expanded {
            tree_entries(items_in(items, name), path, depth + 1, collapsed)
        } else {
            seq![]
        };
        if expanded {
            tree_rows_counted(items_in(items, name), path, depth + 1, collapsed, index);
        }
        let folder = seq![EntryView::Folder { path, name, depth, expanded }];
        let rest = folder_entries(items, prefix, depth, collapsed, k + 1);
        file_rows_append(folder + below, rest, index);
        file_rows_append(folder, below, index);
        assert(folder.drop_last() =~= seq![]);
        assert(file_rows(folder, index) == 0) by {
            reveal_with_fuel(file_rows, 2);
        }
        assert(file_rows(below, index) == if expanded {
            uncovered_count(items_in(items, name), path, collapsed, index, Place::Anywhere)
        } else {
            0
        });
    }
}

proof fn review_items_counted(
    files: Seq<FileView>,
    collapsed: Set<Seq<char>>,
    index: int,
    n: int,
)
    requires
        0 <= n <= files.len(),
    ensures
        uncovered_count(
            review_items(files).take(n),
            seq![],
            collapsed,
            index,
            Place::Anywhere,
        ) == one(
            0 <= index < n && uncovered(
                item_of(files[index].shown_path(), index),
                seq![],
                collapsed,
            ),
        ),
    decreases n,
{
    let items = review_items(files);
    if n > 0 {
        review_items_counted(files, collapsed, index, n - 1);
        assert(items.take(n).drop_last() =~= items.take(n - 1));
    }
}

/// The tree has one row for each file of the review that no collapsed folder
/// hides, and none for the others.
pub proof fn tree_lists_each_visible_file_once(
    files: Seq<FileView>,
    collapsed: Set<Seq<char>>,
    index: int,
)
    requires
        0 <= index < files.len(),
    ensures
        file_rows(review_entries(files, collapsed), index) == if uncovered(
            item_of(files[index].shown_path(), index),
            seq![],
            collapsed,
        ) {
            1nat
        } else {
            0
        },
{
    let items = review_items(files);
    tree_rows_counted(items, seq![], 0, collapsed, index);
    review_items_counted(files, collapsed, index, files.len() as int);
    assert(items.take(items.len() as int) =~= items);
}

/// Without collapsed folders no file is hidden.
pub proof fn nothing_is_hidden_without_collapsed_folders(item: ItemView, prefix: Seq<char>)
    ensures
        uncovered(item, prefix, Set::empty()),
    decreases item.dirs.len(),
{
    if item.dirs.len() > 0 {
        nothing_is_hidden_without_collapsed_folders(
            ItemView { dirs: item.dirs.skip(1), ..item },
            child_path_of(prefix, item.dirs[0]),
        );
    }
}

proof fn text_less_total(a: Seq<char>, b: Seq<char>)
    ensures
        text_less(a, b) || text_less(b, a) || a == b,
        !(text_less(a, b) && text_less(b, a)),
    decreases a.len(),
{
    if a.len() > 0 && b.len() > 0 && a[0] == b[0] {
        text_less_total(a.skip(1), b.skip(1));
        if a.skip(1) == b.skip(1) {
            assert forall|i: int| 0 <= i < a.len() implies a[i] == b[i] by {
                if i > 0 {
                    assert(a.skip(1)[i - 1] == b.skip(1)[i - 1]);
                }
            }
            assert(a.len() == a.skip(1).len() + 1);
            assert(b.len() == b.skip(1).len() + 1);
            assert(a =~= b);
        }
    } else if a.len() == 0 && b.len() == 0 {
        assert(a =~= b);
    }
}

proof fn text_less_transitive(a: Seq<char>, b: Seq<char>, c: Seq<char>)
    requires
        text_less(a, b),
        text_less(b, c),
    ensures
        text_less(a, c),
    decreases a.len(),
{
    if a.len() > 0 && b.len() > 0 && c.len() > 0 && a[0] == b[0] && b[0] == c[0] {
        text_less_transitive(a.skip(1), b.skip(1), c.skip(1));
    }
}

/// Whether names stand in strictly increasing order.
pub open spec fn names_sorted(names: Seq<Seq<char>>) -> bool {
    forall|i: int, j: int|
        0 <= i < j < names.len() ==> text_less(#[trigger] names[i], #[trigger] names[j])
}

proof fn name_place_splits(names: Seq<Seq<char>>, name: Seq<char>, n: int)
    requires
        names_sorted(names),
        !names.contains(name),
        0 <= n <= names.len(),
        forall|i: int| n <= i < names.len() ==> text_less(name, #[trigger] names[i]),
    ensures
        ({
            let at = name_place(names, name, n);
            &&& 0 <= at <= n
            &&& forall|i: int| 0 <= i < at ==> text_less(#[trigger] names[i], name)
            &&& forall|i: int| at <= i < names.len() ==> text_less(name, #[trigger] names[i])
        }),
    decreases n,
{
    if n > 0 {
        if text_less(names[n - 1], name) {
            assert forall|i: int| 0 <= i < n implies text_less(#[trigger] names[i], name) by {
                if i < n - 1 {
                    text_less_transitive(names[i], names[n - 1], name);
                }
            }
        } else {
            text_less_total(names[n - 1], name);
            assert(names.contains(names[n - 1]));
            name_place_splits(names, name, n - 1);
        }
    }
}

/// The folders at each level of the tree stand in the order of their names, and
/// no two have the same name.
pub proof fn folders_are_sorted(items: Seq<ItemView>)
    ensures
        names_sorted(folder_names(items)),
    decreases items.len(),
{
    if items.len() > 0 {
        folders_are_sorted(items.drop_last());
        let names = folder_names(items.drop_last());
        if items.last().dirs.len() > 0 && !names.contains(items.last().dirs[0]) {
            let name = items.last().dirs[0];
            let at = name_place(names, name, names.len() as int);
            name_place_splits(names, name, names.len() as int);
            let more = names.insert(at, name);
            assert forall|i: int, j: int| 0 <= i < j < more.len() implies text_less(
                #[trigger] more[i],
                #[trigger] more[j],
            ) by {
                let a = if i < at { i } else { i - 1 };
                let b = if j < at { j } else { j - 1 };
                if i == at {
                    assert(more[j] == names[b]);
                } else if j == at {
                    assert(more[i] == names[a]);
                } else {
                    assert(more[i] == names[a] && more[j] == names[b]);
                }
            }
        }
    }
}


proof fn listed_file_has_rows(entries: Seq<EntryView>, k: int)
    requires
        0 <= k < entries.len(),
        entries[k] is File,
    ensures
        file_rows(entries, entries[k]->File_index) >= 1,
    decreases entries.len(),
{
    if k < entries.len() - 1 {
        assert(entries.drop_last()[k] == entries[k]);
        listed_file_has_rows(entries.drop_last(), k);
    }
}

/// Every file row of the tree stands for a file of the review.
pub proof fn listed_files_exist(files: Seq<FileView>, collapsed: Set<Seq<char>>, k: int)
    requires
        0 <= k < review_entries(files, collapsed).len(),
        review_entries(files, collapsed)[k] is File,
    ensures
        0 <= review_entries(files, collapsed)[k]->File_index < files.len(),
{
    let entries = review_entries(files, collapsed);
    let index = entries[k]->File_index;
    let items = review_items(files);
    listed_file_has_rows(entries, k);
    tree_rows_counted(items, seq![], 0, collapsed, index);
    review_items_counted(files, collapsed, index, files.len() as int);
    assert(items.take(items.len() as int) =~= items);
}

} // verus!
