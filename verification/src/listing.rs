//! A directory's entries, put in order and laid out for display.
//!
//! The caller reads the directory; this module sorts what it read and lays it
//! out in two columns. Directories and files are told apart by colour.

use vstd::prelude::*;
use vstd::string::*;
use vstd::utf8::encode_utf8;
use vstd::seq_lib::to_multiset_insert;
use colored::Colorize;

verus! {

/// One entry of a directory, as the caller read it.
#[derive(Debug, PartialEq, Eq)]
pub struct Entry {
    /// The path of the entry.
    pub path: String,
    /// Whether the entry is a directory.
    pub is_dir: bool,
}

/// What an [`Entry`] holds, as plain values.
#[verifier::ext_equal]
pub struct EntryView {
    pub path: Seq<char>,
    pub is_dir: bool,
}

impl View for Entry {
    type V = EntryView;

    open spec fn view(&self) -> EntryView {
        EntryView { path: self.path@, is_dir: self.is_dir }
    }
}

impl DeepView for Entry {
    type V = EntryView;

    open spec fn deep_view(&self) -> EntryView {
        self@
    }
}

/// Whether `a` comes no later than `b` when bytes are compared one by one and
/// a proper prefix comes first.
pub open spec fn lex_le(a: Seq<u8>, b: Seq<u8>) -> bool
    decreases a.len(),
{
    if a.len() == 0 {
        true
    } else if b.len() == 0 {
        false
    } else if a[0] != b[0] {
        a[0] < b[0]
    } else {
        lex_le(a.skip(1), b.skip(1))
    }
}

/// Whether the text `a` comes no later than `b` in the order of strings: by
/// the bytes of their UTF-8 encoding.
pub open spec fn text_le(a: Seq<char>, b: Seq<char>) -> bool {
    lex_le(encode_utf8(a), encode_utf8(b))
}

/// Of two byte strings, one comes no later than the other.
pub proof fn lex_le_total(a: Seq<u8>, b: Seq<u8>)
    ensures
        lex_le(a, b) || lex_le(b, a),
    decreases a.len(),
{
    if a.len() > 0 && b.len() > 0 && a[0] == b[0] {
        lex_le_total(a.skip(1), b.skip(1));
    }
}

/// The order of byte strings is transitive.
pub proof fn lex_le_transitive(a: Seq<u8>, b: Seq<u8>, c: Seq<u8>)
    requires
        lex_le(a, b),
        lex_le(b, c),
    ensures
        lex_le(a, c),
    decreases a.len(),
{
    if a.len() > 0 && b.len() > 0 && c.len() > 0 && a[0] == b[0] && b[0] == c[0] {
        lex_le_transitive(a.skip(1), b.skip(1), c.skip(1));
    }
}

/// Compares two byte strings.
fn bytes_le(a: &[u8], b: &[u8]) -> (le: bool)
    ensures
        le == lex_le(a@, b@),
{
    let mut i: usize = 0;
    assert(a@.skip(0) =~= a@ && b@.skip(0) =~= b@);
    while i < a.len() && i < b.len()
        invariant
            i <= a.len(),
            i <= b.len(),
            lex_le(a@, b@) == lex_le(a@.skip(i as int), b@.skip(i as int)),
        decreases a.len() - i,
    {
        if a[i] != b[i] {
            return a[i] < b[i];
        }
        assert(a@.skip(i as int).skip(1) =~= a@.skip(i + 1));
        assert(b@.skip(i as int).skip(1) =~= b@.skip(i + 1));
        i = i + 1;
    }
    i == a.len()
}

/// Whether the text `a` comes no later than `b` in the order of strings.
pub fn comes_first(a: &str, b: &str) -> (le: bool)
    ensures
        le == text_le(a@, b@),
{
    bytes_le(a.as_bytes(), b.as_bytes())
}

/// Whether `entries` are in the order of their paths.
pub open spec fn in_order(entries: Seq<EntryView>) -> bool {
    forall|i: int, j: int|
        0 <= i <= j < entries.len() ==> text_le(
            #[trigger] entries[i].path,
            #[trigger] entries[j].path,
        )
}

/// An empty list holds nothing.
proof fn nothing_in_empty(entries: Seq<EntryView>)
    requires
        entries.len() == 0,
    ensures
        entries.to_multiset() == vstd::multiset::Multiset::<EntryView>::empty(),
{
    entries.to_multiset_ensures();
    vstd::multiset::lemma_multiset_empty_len(entries.to_multiset());
}

/// Puts the entries of a directory in the order of their paths. Nothing is
/// added and nothing is lost.
pub fn get_file_list(entries: Vec<Entry>) -> (sorted: Vec<Entry>)
    ensures
        in_order(sorted.deep_view()),
        sorted.deep_view().to_multiset() == entries.deep_view().to_multiset(),
{
    let ghost all = entries.deep_view();
    let mut rest = entries;
    let mut sorted: Vec<Entry> = Vec::new();
    assert(sorted.deep_view() =~= Seq::<EntryView>::empty());
    assert(sorted.deep_view().to_multiset().add(rest.deep_view().to_multiset())
        =~= all.to_multiset()) by {
        broadcast use vstd::multiset::group_multiset_axioms;
        nothing_in_empty(sorted.deep_view());
        assert(rest.deep_view() == all);
    }
    while rest.len() > 0
        invariant
            in_order(sorted.deep_view()),
            sorted.deep_view().to_multiset().add(rest.deep_view().to_multiset())
                == all.to_multiset(),
        decreases rest.len(),
    {
        let ghost rest_before = rest.deep_view();
        let ghost sorted_before = sorted.deep_view();
        let entry = rest.pop().unwrap();
        assert(rest.deep_view() =~= rest_before.drop_last());
        assert(entry@ == rest_before.last());
        // the first place whose entry comes strictly after the new one
        let mut at: usize = 0;
        while at < sorted.len() && comes_first(sorted[at].path.as_str(), entry.path.as_str())
            invariant
                at <= sorted.len(),
                sorted.deep_view() == sorted_before,
                forall|k: int| 0 <= k < at ==> text_le(sorted_before[k].path, entry@.path),
            decreases sorted.len() - at,
        {
            at = at + 1;
        }
        sorted.insert(at, entry);
        proof {
            let now = sorted.deep_view();
            assert(now =~= sorted_before.insert(at as int, entry@));
            assert(in_order(now)) by {
                assert forall|i: int, j: int| 0 <= i <= j < now.len() implies text_le(
                    #[trigger] now[i].path,
                    #[trigger] now[j].path,
                ) by {
                    if i == j {
                        lex_le_total(encode_utf8(now[i].path), encode_utf8(now[i].path));
                    } else if j < at {
                        assert(now[i] == sorted_before[i] && now[j] == sorted_before[j]);
                    } else if j == at {
                        assert(now[i] == sorted_before[i]);
                    } else if i > at {
                        assert(now[i] == sorted_before[i - 1] && now[j] == sorted_before[j - 1]);
                    } else {
                        // the new entry, or one before it, against one after it
                        let after = sorted_before[at as int].path;
                        lex_le_total(encode_utf8(after), encode_utf8(entry@.path));
                        assert(text_le(entry@.path, after));
                        assert(now[j] == sorted_before[j - 1]);
                        assert(text_le(sorted_before[at as int].path, sorted_before[j - 1].path));
                        lex_le_transitive(
                            encode_utf8(entry@.path),
                            encode_utf8(after),
                            encode_utf8(now[j].path),
                        );
                        if i < at {
                            assert(now[i] == sorted_before[i]);
                            lex_le_transitive(
                                encode_utf8(now[i].path),
                                encode_utf8(entry@.path),
                                encode_utf8(now[j].path),
                            );
                        }
                    }
                }
            }
            to_multiset_insert(sorted_before, at as int, entry@);
            assert(rest_before =~= rest.deep_view().push(entry@));
            vstd::seq_lib::to_multiset_build(rest.deep_view(), entry@);
            assert(now.to_multiset().add(rest.deep_view().to_multiset()) =~= all.to_multiset()) by {
                broadcast use vstd::multiset::group_multiset_axioms;
            }
        }
    }
    assert(rest.deep_view() =~= Seq::<EntryView>::empty());
    assert(sorted.deep_view().to_multiset() =~= all.to_multiset()) by {
        broadcast use vstd::multiset::group_multiset_axioms;
        nothing_in_empty(rest.deep_view());
    }
    sorted
}

/// The character that starts a terminal escape sequence.
pub open spec fn escape() -> char {
    '\u{1b}'
}

/// Whether `shown` holds `name` unbroken, with or without something around
/// it.
pub open spec fn wraps(shown: Seq<char>, name: Seq<char>) -> bool {
    exists|before: Seq<char>, after: Seq<char>| shown == before + name + after
}

/// Calls `colored`: `blue`, then `bold`, and formats the result. Trusted:
/// a name that holds no escape character comes back unbroken, bare where
/// colours are switched off for this process, else between the escape
/// sequences that set and reset the colour. Whether colours are on depends on
/// the environment and the terminal, so no more is said.
#[verifier::external_body]
fn paint_dir(name: &str) -> (shown: String)
    ensures
        !name@.contains(escape()) ==> wraps(shown@, name@),
{
    format!("{}", name.blue().bold())
}

/// Calls `colored`: `bright_cyan`, and formats the result. Trusted: as for
/// [`paint_dir`].
#[verifier::external_body]
fn paint_file(name: &str) -> (shown: String)
    ensures
        !name@.contains(escape()) ==> wraps(shown@, name@),
{
    format!("{}", name.bright_cyan())
}

/// The path of an entry as it is shown: a directory in bold blue, anything
/// else in bright cyan, where colours are on.
pub fn colorize_file(entry: &Entry) -> (shown: String)
    ensures
        !entry@.path.contains(escape()) ==> wraps(shown@, entry@.path),
{
    if entry.is_dir {
        paint_dir(entry.path.as_str())
    } else {
        paint_file(entry.path.as_str())
    }
}

/// One name in the layout: the text to show, and the width the name counts for.
#[derive(Debug, PartialEq, Eq)]
pub struct Cell {
    pub shown: String,
    pub width: usize,
}

/// What a [`Cell`] holds, as plain values.
#[verifier::ext_equal]
pub struct CellView {
    pub shown: Seq<char>,
    pub width: nat,
}

impl View for Cell {
    type V = CellView;

    open spec fn view(&self) -> CellView {
        CellView { shown: self.shown@, width: self.width as nat }
    }
}

impl DeepView for Cell {
    type V = CellView;

    open spec fn deep_view(&self) -> CellView {
        self@
    }
}

/// Whether `cells` stand for `files`, one for one: each as wide as the path
/// has bytes, and showing the path.
pub open spec fn painted(files: Seq<EntryView>, cells: Seq<CellView>) -> bool {
    &&& cells.len() == files.len()
    &&& forall|i: int|
        0 <= i < files.len() ==> {
            &&& (#[trigger] cells[i]).width == encode_utf8(files[i].path).len()
            &&& !files[i].path.contains(escape()) ==> wraps(cells[i].shown, files[i].path)
        }
}

/// Makes a cell for each entry.
pub fn paint(files: &Vec<Entry>) -> (cells: Vec<Cell>)
    ensures
        painted(files.deep_view(), cells.deep_view()),
{
    let mut cells: Vec<Cell> = Vec::new();
    let mut i: usize = 0;
    while i < files.len()
        invariant
            i <= files.len(),
            painted(files.deep_view().take(i as int), cells.deep_view()),
        decreases files.len() - i,
    {
        let ghost before = cells.deep_view();
        let entry = &files[i];
        let width = entry.path.as_str().as_bytes().len();
        let cell = Cell { shown: colorize_file(entry), width };
        cells.push(cell);
        proof {
            let now = cells.deep_view();
            let seen = files.deep_view().take(i + 1);
            assert(now =~= before.push(cell@));
            assert forall|k: int| 0 <= k < seen.len() implies {
                &&& (#[trigger] now[k]).width == encode_utf8(seen[k].path).len()
                &&& !seen[k].path.contains(escape()) ==> wraps(now[k].shown, seen[k].path)
            } by {
                if k < i {
                    assert(now[k] == before[k]);
                    assert(seen[k] == files.deep_view().take(i as int)[k]);
                }
            }
        }
        i = i + 1;
    }
    assert(files.deep_view().take(files.len() as int) =~= files.deep_view());
    cells
}

/// The greatest width among `cells`, and 0 where there is none.
pub open spec fn widest(cells: Seq<CellView>) -> nat
    decreases cells.len(),
{
    if cells.len() == 0 {
        0
    } else {
        let before = widest(cells.drop_last());
        if cells.last().width > before {
            cells.last().width
        } else {
            before
        }
    }
}

/// No cell is wider than the widest.
pub proof fn widest_bounds(cells: Seq<CellView>, i: int)
    requires
        0 <= i < cells.len(),
    ensures
        cells[i].width <= widest(cells),
    decreases cells.len(),
{
    if i < cells.len() - 1 {
        widest_bounds(cells.drop_last(), i);
    }
}

/// `count` spaces.
pub open spec fn blanks(count: nat) -> Seq<char> {
    Seq::new(count, |i: int| ' ')
}

/// Row `r` of the layout: cell `2r`, and beside it cell `2r + 1` where there is
/// one. Four spaces part the two columns, after as many more as the left
/// name falls short of the widest of all names.
pub open spec fn row(cells: Seq<CellView>, r: int) -> Seq<char> {
    let left = cells[2 * r];
    if 2 * r + 1 < cells.len() {
        left.shown + blanks(4) + blanks((widest(cells) - left.width) as nat) + cells[2 * r
            + 1].shown
    } else {
        left.shown
    }
}

/// The layout of `cells`: two to a row, in order.
pub open spec fn rows(cells: Seq<CellView>) -> Seq<Seq<char>> {
    Seq::new((cells.len() + 1) / 2, |r: int| row(cells, r))
}

/// Appends `count` spaces to `line`.
fn pad(line: &mut String, count: usize)
    ensures
        final(line)@ == old(line)@ + blanks(count as nat),
{
    let mut done: usize = 0;
    assert(line@ =~= old(line)@ + blanks(0));
    while done < count
        invariant
            done <= count,
            line@ == old(line)@ + blanks(done as nat),
        decreases count - done,
    {
        line.push(' ');
        done = done + 1;
        assert(line@ =~= old(line)@ + blanks(done as nat));
    }
}

/// Lays `cells` out in two columns, one line for each row.
pub fn layout(cells: &Vec<Cell>) -> (lines: Vec<String>)
    ensures
        lines.deep_view() == rows(cells.deep_view()),
{
    let ghost all = cells.deep_view();
    let mut most: usize = 0;
    let mut k: usize = 0;
    assert(all.take(0) =~= Seq::empty());
    while k < cells.len()
        invariant
            k <= cells.len(),
            all == cells.deep_view(),
            most == widest(all.take(k as int)),
        decreases cells.len() - k,
    {
        assert(all.take(k + 1).drop_last() =~= all.take(k as int));
        if cells[k].width > most {
            most = cells[k].width;
        }
        k = k + 1;
    }
    assert(all.take(cells.len() as int) =~= all);
    let mut lines: Vec<String> = Vec::new();
    let mut i: usize = 0;
    assert(lines.deep_view() =~= rows(all).take(0));
    while i < cells.len()
        invariant
            i <= cells.len(),
            i % 2 == 0,
            all == cells.deep_view(),
            most == widest(all),
            lines.deep_view() == rows(all).take(i as int / 2),
        decreases cells.len() - i,
    {
        let ghost before = lines.deep_view();
        let ghost r = i as int / 2;
        let left = &cells[i];
        let mut line = left.shown.clone();
        proof {
            widest_bounds(all, i as int);
        }
        if i + 1 < cells.len() {
            pad(&mut line, 4);
            pad(&mut line, most - left.width);
            line.append(cells[i + 1].shown.as_str());
            assert(line@ == row(all, r));
            lines.push(line);
            i = i + 2;
        } else {
            assert(line@ == row(all, r));
            lines.push(line);
            i = i + 1;
            // an odd count: round the index up so that it stays even
            assert(i == cells.len());
            proof {
                assert(lines.deep_view() =~= before.push(row(all, r)));
                assert(rows(all).take(r + 1) =~= rows(all).take(r).push(row(all, r)));
                assert(rows(all).take(r + 1) =~= rows(all));
            }
            return lines;
        }
        proof {
            assert(lines.deep_view() =~= before.push(row(all, r)));
            assert(rows(all).take(r + 1) =~= rows(all).take(r).push(row(all, r)));
        }
    }
    assert(rows(all).take(i as int / 2) =~= rows(all));
    lines
}

/// The lines that show a directory listing: the entries in two columns, in the
/// order given, directories told from files by colour. No entry, no line.
pub fn print_file_list(files: &Vec<Entry>) -> (lines: Vec<String>)
    ensures
        exists|cells: Seq<CellView>|
            painted(files.deep_view(), cells) && lines.deep_view() == rows(cells),
{
    let cells = paint(files);
    layout(&cells)
}

} // verus!
