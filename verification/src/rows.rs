//! The list of rows, its cursor and its marks.
//!
//! The rows are the lines of the last output. The first row, where there is
//! one, is the header of the table: the cursor may rest on it, but it is
//! never marked, and once the cursor has left it the arrow keys do not take
//! it back there.

use vstd::prelude::*;
use vstd::string::*;

use crate::text::{
    id_column, id_column_index, is_space, is_word, joined, lemma_joined_is_trimmed,
    lemma_words_are_words, lines, split_lines, split_whitespace, words,
};

verus! {

/// One row: a line of text, and whether it is marked.
struct ContentItem {
    text: String,
    selected: bool,
}

/// A row, as plain values.
pub struct RowView {
    pub text: Seq<char>,
    pub selected: bool,
}

impl View for ContentItem {
    type V = RowView;

    closed spec fn view(&self) -> RowView {
        RowView { text: self.text@, selected: self.selected }
    }
}

/// The place of the cursor.
struct Scroller {
    cursor: usize,
}

/// How a row is shown.
#[derive(Clone, Copy, Debug, PartialEq, Eq, Structural)]
pub enum Highlight {
    /// Like any other row.
    Plain,
    /// As the row under the cursor.
    Cursor,
    /// As a marked row.
    Marked,
}

/// The rows with the cursor.
pub struct RowList {
    content: Vec<ContentItem>,
    scroll: Scroller,
}

/// A [`RowList`], as plain values.
#[verifier::ext_equal]
pub struct ListView {
    pub rows: Seq<RowView>,
    pub cursor: nat,
}

impl View for RowList {
    type V = ListView;

    closed spec fn view(&self) -> ListView {
        ListView {
            rows: self.content@.map_values(|row: ContentItem| row@),
            cursor: self.scroll.cursor as nat,
        }
    }
}

/// The rows that stand for `lines`, none of them marked.
pub open spec fn rows_of(lines: Seq<Seq<char>>) -> Seq<RowView> {
    lines.map_values(|line: Seq<char>| RowView { text: line, selected: false })
}

/// The identifiers of the marked rows among `rows`, in their order: of each
/// marked row the word in `column`, where the row has that many words.
pub open spec fn picked(rows: Seq<RowView>, column: nat) -> Seq<Seq<char>>
    decreases rows.len(),
{
    if rows.len() == 0 {
        Seq::empty()
    } else {
        let before = picked(rows.drop_last(), column);
        let row = rows.last();
        if row.selected && column < words(row.text).len() {
            before.push(words(row.text)[column as int])
        } else {
            before
        }
    }
}

/// The target that `rows` stand for: the identifiers of the marked rows
/// below the header, with one blank between each two. The header says in
/// which column the identifiers are.
pub open spec fn target_of(rows: Seq<RowView>) -> Seq<char> {
    if rows.len() == 0 {
        Seq::empty()
    } else {
        joined(picked(rows.skip(1), id_column(words(rows[0].text))))
    }
}

impl ListView {
    /// The cursor is on a row, or at 0 where there is none, and the header
    /// is not marked.
    pub open spec fn wf(self) -> bool {
        &&& self.rows.len() == 0 ==> self.cursor == 0
        &&& self.rows.len() > 0 ==> self.cursor < self.rows.len() && !self.rows[0].selected
    }

    /// No row is marked.
    pub open spec fn unmarked(self) -> bool {
        forall|i: int| 0 <= i < self.rows.len() ==> !(#[trigger] self.rows[i]).selected
    }

    /// The list after the key for UP: the cursor is one row further, and
    /// from the last row it goes to row 1, not to the header. With fewer
    /// than two rows nothing moves.
    pub open spec fn up(self) -> ListView {
        if self.rows.len() <= 1 {
            self
        } else if self.cursor + 1 < self.rows.len() {
            ListView { cursor: self.cursor + 1, ..self }
        } else {
            ListView { cursor: 1, ..self }
        }
    }

    /// The list after the key for DOWN: the cursor is one row back, and
    /// from row 1, or from the header, it goes to the last row. With fewer
    /// than two rows nothing moves.
    pub open spec fn down(self) -> ListView {
        if self.rows.len() <= 1 {
            self
        } else if self.cursor >= 2 {
            ListView { cursor: (self.cursor - 1) as nat, ..self }
        } else {
            ListView { cursor: (self.rows.len() - 1) as nat, ..self }
        }
    }

    /// The list after `presses` keys for UP.
    pub open spec fn ups(self, presses: nat) -> ListView
        decreases presses,
    {
        if presses == 0 {
            self
        } else {
            self.ups((presses - 1) as nat).up()
        }
    }

    /// The list after the key that marks: the row under the cursor is
    /// marked if it was not, and the other way round. The header is left
    /// alone.
    pub open spec fn toggle(self) -> ListView {
        if 0 < self.cursor < self.rows.len() {
            let row = self.rows[self.cursor as int];
            ListView {
                rows: self.rows.update(
                    self.cursor as int,
                    RowView { selected: !row.selected, ..row },
                ),
                ..self
            }
        } else {
            self
        }
    }

    /// The same rows, none of them marked, with the cursor at the top.
    pub open spec fn rewound(self) -> ListView {
        ListView {
            rows: self.rows.map_values(|row: RowView| RowView { selected: false, ..row }),
            cursor: 0,
        }
    }

    /// The list with one more row at its end, which is not marked.
    pub open spec fn with_status(self, text: Seq<char>) -> ListView {
        ListView { rows: self.rows.push(RowView { text, selected: false }), ..self }
    }

    /// How the row at `index` is shown.
    pub open spec fn highlight(self, index: nat) -> Highlight {
        if index >= self.rows.len() {
            Highlight::Plain
        } else if index == self.cursor {
            if index == 0 {
                Highlight::Plain
            } else {
                Highlight::Cursor
            }
        } else if self.rows[index as int].selected {
            Highlight::Marked
        } else {
            Highlight::Plain
        }
    }
}

impl RowList {
    /// The list without rows.
    pub fn new() -> (list: RowList)
        ensures
            list@ == (ListView { rows: Seq::empty(), cursor: 0 }),
            list@.wf(),
    {
        let list = RowList { content: Vec::new(), scroll: Scroller { cursor: 0 } };
        list
    }

    /// The number of rows.
    pub fn len(&self) -> (n: usize)
        ensures
            n == self@.rows.len(),
    {
        self.content.len()
    }

    /// The row that the cursor is on.
    pub fn cursor(&self) -> (cursor: usize)
        ensures
            cursor == self@.cursor,
    {
        self.scroll.cursor
    }

    /// The text of the row at `index`.
    pub fn text(&self, index: usize) -> (text: Option<&String>)
        ensures
            index < self@.rows.len() ==> text is Some && text->0@ == self@.rows[index as int].text,
            index >= self@.rows.len() ==> text is None,
    {
        if index < self.content.len() {
            Some(&self.content[index].text)
        } else {
            None
        }
    }

    /// Whether the row at `index` is marked.
    pub fn is_selected(&self, index: usize) -> (marked: bool)
        ensures
            marked == (index < self@.rows.len() && self@.rows[index as int].selected),
    {
        index < self.content.len() && self.content[index].selected
    }

    /// How the row at `index` is shown: the row under the cursor stands
    /// out, unless it is the header; of the others, those that are marked.
    pub fn highlight(&self, index: usize) -> (shown: Highlight)
        ensures
            shown == self@.highlight(index as nat),
    {
        if index >= self.content.len() {
            Highlight::Plain
        } else if index == self.scroll.cursor {
            if index == 0 {
                Highlight::Plain
            } else {
                Highlight::Cursor
            }
        } else if self.content[index].selected {
            Highlight::Marked
        } else {
            Highlight::Plain
        }
    }

    /// Moves the cursor as the key for UP does.
    pub fn add_cursor(&mut self)
        ensures
            final(self)@ == old(self)@.up(),
            old(self)@.wf() ==> final(self)@.wf(),
    {
        let len = self.content.len();
        if len > 1 {
            if self.scroll.cursor < len - 1 {
                self.scroll.cursor = self.scroll.cursor + 1;
            } else {
                self.scroll.cursor = 1;
            }
        }
    }

    /// Moves the cursor as the key for DOWN does.
    pub fn sub_cursor(&mut self)
        ensures
            final(self)@ == old(self)@.down(),
            old(self)@.wf() ==> final(self)@.wf(),
    {
        let len = self.content.len();
        if len > 1 {
            if self.scroll.cursor >= 2 {
                self.scroll.cursor = self.scroll.cursor - 1;
            } else {
                self.scroll.cursor = len - 1;
            }
        }
    }

    /// Marks the row under the cursor, or takes its mark away.
    pub fn toggle(&mut self)
        ensures
            final(self)@ == old(self)@.toggle(),
            old(self)@.wf() ==> final(self)@.wf(),
    {
        let cursor = self.scroll.cursor;
        if 0 < cursor && cursor < self.content.len() {
            let marked = self.content[cursor].selected;
            self.content[cursor].selected = !marked;
        }
    }

    /// Takes every mark away and puts the cursor at the top.
    pub fn rewind(&mut self)
        ensures
            final(self)@ == old(self)@.rewound(),
            final(self)@.unmarked(),
            old(self)@.wf() ==> final(self)@.wf(),
    {
        let mut i: usize = 0;
        while i < self.content.len()
            invariant
                i <= self.content@.len(),
                self.content@.len() == old(self).content@.len(),
                self.scroll == old(self).scroll,
                forall|j: int|
                    0 <= j < i ==> (#[trigger] self.content@[j])@ == (RowView {
                        selected: false,
                        ..old(self).content@[j]@
                    }),
                forall|j: int|
                    i <= j < self.content@.len() ==> #[trigger] self.content@[j] == old(
                        self,
                    ).content@[j],
            decreases self.content@.len() - i,
        {
            self.content[i].selected = false;
            i = i + 1;
        }
        self.scroll.cursor = 0;
    }

    /// Takes every row away.
    pub fn clear(&mut self)
        ensures
            final(self)@ == (ListView { rows: Seq::empty(), cursor: 0 }),
            final(self)@.wf(),
    {
        self.content = Vec::new();
        self.scroll.cursor = 0;
    }

    /// Adds a row at the end, for a message to the user.
    pub fn push_status(&mut self, text: String)
        ensures
            final(self)@ == old(self)@.with_status(text@),
            old(self)@.wf() ==> final(self)@.wf(),
    {
        self.content.push(ContentItem { text, selected: false });
    }

    /// Puts the lines of `output` in place of the rows, none of them
    /// marked, with the cursor at the top.
    pub fn load(&mut self, output: &str)
        ensures
            final(self)@ == (ListView { rows: rows_of(lines(output@)), cursor: 0 }),
            final(self)@.wf(),
            final(self)@.unmarked(),
    {
        let mut found = split_lines(output);
        let ghost all = lines(output@);
        let mut content: Vec<ContentItem> = Vec::new();
        let mut i: usize = 0;
        while i < found.len()
            invariant
                i <= found@.len(),
                found@.len() == all.len(),
                forall|k: int| 0 <= k < found@.len() ==> (#[trigger] found@[k])@ == all[k],
                content@.len() == i,
                forall|k: int|
                    0 <= k < i ==> (#[trigger] content@[k])@ == (RowView {
                        text: all[k],
                        selected: false,
                    }),
            decreases found@.len() - i,
        {
            content.push(ContentItem { text: found[i].clone(), selected: false });
            i = i + 1;
        }
        self.content = content;
        self.scroll.cursor = 0;
    }

    /// The target that the marked rows stand for.
    pub fn extract_target_string(&self) -> (target: String)
        ensures
            target@ == target_of(self@.rows),
    {
        let mut target = String::new();
        let len = self.content.len();
        if len == 0 {
            return target;
        }
        let column = id_column_index(self.content[0].text.as_str());
        let ghost rows = self@.rows;
        let ghost mut ids: Seq<Seq<char>> = Seq::empty();
        let mut any = false;
        let mut i: usize = 1;
        while i < len
            invariant
                1 <= i <= len,
                len == self.content@.len(),
                rows == self@.rows,
                column == id_column(words(rows[0].text)),
                ids == picked(rows.skip(1).take(i - 1), column as nat),
                any == (ids.len() > 0),
                target@ == joined(ids),
            decreases len - i,
        {
            proof {
                assert(rows.skip(1).take(i as int).drop_last() =~= rows.skip(1).take(i - 1));
            }
            if self.content[i].selected {
                let found = split_whitespace(self.content[i].text.as_str());
                if column < found.len() {
                    let word = found[column];
                    proof {
                        reveal_strlit(" ");
                        assert(ids.push(word@).drop_last() =~= ids);
                    }
                    if any {
                        target.append(" ");
                    }
                    target.append(word);
                    any = true;
                    proof {
                        ids = ids.push(word@);
                    }
                }
            }
            i = i + 1;
        }
        proof {
            assert(rows.skip(1).take(len - 1) =~= rows.skip(1));
        }
        target
    }
}

/// With two rows or more, neither arrow key takes the cursor to the header,
/// and neither changes a row.
pub proof fn lemma_arrows_skip_header(list: ListView)
    requires
        list.wf(),
        list.rows.len() > 1,
    ensures
        1 <= list.up().cursor < list.rows.len(),
        1 <= list.down().cursor < list.rows.len(),
        list.up().rows == list.rows,
        list.down().rows == list.rows,
{
}

/// Below the header DOWN undoes UP, and UP undoes DOWN.
pub proof fn lemma_down_undoes_up(list: ListView)
    requires
        list.rows.len() > 1,
        1 <= list.cursor < list.rows.len(),
    ensures
        list.up().down() == list,
        list.down().up() == list,
{
}

/// From the header, the key for UP pressed again and again takes the cursor
/// through the rows 1, 2, and so on to the last, then through the same rows
/// again: after `presses` of them it is on row
/// `1 + (presses - 1) % (rows - 1)`.
pub proof fn lemma_ups_cycle(list: ListView, presses: nat)
    requires
        list.rows.len() > 1,
        list.cursor == 0,
        presses >= 1,
    ensures
        list.ups(presses).cursor == 1 + (presses - 1) % (list.rows.len() - 1),
        list.ups(presses).rows == list.rows,
    decreases presses,
{
    let m = list.rows.len() - 1;
    if presses == 1 {
        assert(0int % m == 0) by (nonlinear_arith)
            requires
                m > 0,
        ;
    } else {
        lemma_ups_cycle(list, (presses - 1) as nat);
        let x = presses - 2;
        assert((x + 1) % m == if x % m + 1 < m {
            x % m + 1
        } else {
            0
        }) by (nonlinear_arith)
            requires
                x >= 0,
                m > 0,
        ;
        assert(0 <= x % m < m) by (nonlinear_arith)
            requires
                x >= 0,
                m > 0,
        ;
    }
}

/// Marking the same row twice leaves the list as it was.
pub proof fn lemma_toggle_twice(list: ListView)
    ensures
        list.toggle().toggle() == list,
{
}

/// Rows of which none is marked give no identifier.
pub proof fn lemma_picked_none(rows: Seq<RowView>, column: nat)
    requires
        forall|i: int| 0 <= i < rows.len() ==> !(#[trigger] rows[i]).selected,
    ensures
        picked(rows, column) == Seq::<Seq<char>>::empty(),
    decreases rows.len(),
{
    if rows.len() > 0 {
        lemma_picked_none(rows.drop_last(), column);
    }
}

/// Where no row below the header is marked, the target is empty.
pub proof fn lemma_no_mark_no_target(rows: Seq<RowView>)
    requires
        forall|i: int| 1 <= i < rows.len() ==> !(#[trigger] rows[i]).selected,
    ensures
        target_of(rows) == Seq::<char>::empty(),
{
    if rows.len() > 0 {
        lemma_picked_none(rows.skip(1), id_column(words(rows[0].text)));
    }
}

/// Every identifier that is picked is a word: not empty, and without white
/// space.
pub proof fn lemma_picked_are_words(rows: Seq<RowView>, column: nat)
    ensures
        forall|k: int|
            0 <= k < picked(rows, column).len() ==> is_word(#[trigger] picked(rows, column)[k]),
    decreases rows.len(),
{
    if rows.len() > 0 {
        let before = picked(rows.drop_last(), column);
        lemma_picked_are_words(rows.drop_last(), column);
        lemma_words_are_words(rows.last().text);
        assert forall|k: int| 0 <= k < picked(rows, column).len() implies is_word(
            #[trigger] picked(rows, column)[k],
        ) by {
            if k < before.len() {
                assert(picked(rows, column)[k] == before[k]);
            }
        }
    }
}

/// A target has no white space at its ends.
pub proof fn lemma_target_is_trimmed(rows: Seq<RowView>)
    ensures
        target_of(rows).len() > 0 ==> !is_space(target_of(rows).first()) && !is_space(
            target_of(rows).last(),
        ),
{
    if rows.len() > 0 {
        let column = id_column(words(rows[0].text));
        lemma_picked_are_words(rows.skip(1), column);
        lemma_joined_is_trimmed(picked(rows.skip(1), column));
    }
}

} // verus!
