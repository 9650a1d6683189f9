//! The document: the rows of text that are edited, and the name of their file.

use crate::layout::Position;
use crate::row::{cluster_count, deleted, inserted, Row};
use crate::segmentation::{grapheme_clusters, joined};
use vstd::prelude::*;

verus! {

/// What a document holds: the name of its file, if it has one, and the text
/// of its rows.
pub ghost struct DocumentText {
    pub file_name: Option<Seq<char>>,
    pub rows: Seq<Seq<char>>,
}

/// The text of each row of `rows`, in order.
pub open spec fn row_texts(rows: Seq<Row>) -> Seq<Seq<char>> {
    Seq::new(rows.len(), |i: int| rows[i]@)
}

impl DocumentText {
    /// The rows after the cluster at `at` was deleted. At the end of a row
    /// that is not the last, the next row is joined on instead. A position
    /// below the last row changes nothing.
    pub open spec fn deleted(self, at: Position) -> DocumentText {
        let row = at.row as int;
        if row >= self.rows.len() {
            self
        } else if at.col == cluster_count(self.rows[row]) && row < self.rows.len() - 1 {
            DocumentText {
                rows: self.rows.remove(row + 1).update(row, self.rows[row] + self.rows[row + 1]),
                ..self
            }
        } else {
            DocumentText {
                rows: self.rows.update(row, deleted(self.rows[row], at.col as int)),
                ..self
            }
        }
    }

    /// The rows after `ch` was inserted at `at`: into the row that `at`
    /// names, or as a new last row where `at` names the row after the last.
    pub open spec fn inserted(self, at: Position, ch: char) -> DocumentText {
        let row = at.row as int;
        if row == self.rows.len() {
            DocumentText { rows: self.rows.push(seq![ch]), ..self }
        } else {
            DocumentText {
                rows: self.rows.update(row, inserted(self.rows[row], at.col as int, ch)),
                ..self
            }
        }
    }

    /// The rows after a line break was inserted at `at`: the row is cut
    /// before the cluster that `at` names and what follows becomes the next
    /// row. In the row after the last an empty row is added, and a position
    /// further below changes nothing.
    pub open spec fn broken(self, at: Position) -> DocumentText {
        let row = at.row as int;
        if row > self.rows.len() {
            self
        } else if row == self.rows.len() {
            DocumentText { rows: self.rows.push(Seq::empty()), ..self }
        } else {
            let clusters = grapheme_clusters(self.rows[row]);
            DocumentText {
                rows: self.rows.update(row, joined(clusters, 0, at.col as int)).insert(
                    row + 1,
                    joined(clusters, at.col as int, clusters.len() as int),
                ),
                ..self
            }
        }
    }

    /// The text of the document as it is stored: every row followed by a
    /// line feed.
    pub open spec fn contents(self) -> Seq<char> {
        self.rows.map_values(|row: Seq<char>| row.push('\n')).flatten()
    }
}

/// The offset of the first line feed of `text` at or after `from`, or the
/// length of `text` where there is none.
pub open spec fn line_end(text: Seq<char>, from: int) -> int
    decreases text.len() - from,
{
    if from >= text.len() {
        text.len() as int
    } else if text[from] == '\n' {
        from
    } else {
        line_end(text, from + 1)
    }
}

/// The line of `text` that starts at `from`: what stands before the next
/// line feed, without the carriage return that may precede the line feed.
pub open spec fn line_at(text: Seq<char>, from: int) -> Seq<char> {
    let end = line_end(text, from);
    if from < end < text.len() && text[end - 1] == '\r' {
        text.subrange(from, end - 1)
    } else {
        text.subrange(from, end)
    }
}

/// The lines of `text` from offset `from` on. A line ends with a line feed
/// or with the text, and a text that ends with a line feed has no empty
/// last line.
pub open spec fn lines_from(text: Seq<char>, from: int) -> Seq<Seq<char>>
    decreases text.len() - from,
{
    if from < 0 || from >= text.len() {
        Seq::empty()
    } else {
        let end = line_end(text, from);
        let next = if from <= end < text.len() {
            end + 1
        } else {
            text.len() as int
        };
        seq![line_at(text, from)] + lines_from(text, next)
    }
}

/// The line feed that ends a line does not come before the line's start.
pub proof fn lemma_line_end_bounds(text: Seq<char>, from: int)
    requires
        0 <= from <= text.len(),
    ensures
        from <= line_end(text, from) <= text.len(),
        forall|i: int| from <= i < line_end(text, from) ==> text[i] != '\n',
        line_end(text, from) < text.len() ==> text[line_end(text, from)] == '\n',
    decreases text.len() - from,
{
    if from < text.len() && text[from] != '\n' {
        lemma_line_end_bounds(text, from + 1);
    }
}

/// Raised when a character is to be inserted below the row after the last.
#[derive(Debug, Clone, Copy, PartialEq, Eq, Structural)]
pub struct InsertError;

impl InsertError {
    /// The message that describes the error.
    pub fn message(&self) -> (text: String)
        ensures
            text@ == "trying to insert character past current string length"@,
    {
        "trying to insert character past current string length".to_owned()
    }
}

/// The text that is edited.
#[derive(Debug)]
pub struct Document {
    file_name: Option<String>,
    rows: Vec<Row>,
}

impl View for Document {
    type V = DocumentText;

    closed spec fn view(&self) -> DocumentText {
        DocumentText {
            file_name: match self.file_name {
                Some(name) => Some(name@),
                None => None,
            },
            rows: row_texts(self.rows@),
        }
    }
}

impl Document {
    /// Create a document with the given rows, stored under `file_name`.
    pub fn new(file_name: Option<String>, rows: Vec<Row>) -> (document: Self)
        ensures
            document@.rows == row_texts(rows@),
            document@.file_name == match file_name {
                Some(name) => Some(name@),
                None => None,
            },
    {
        Self { file_name, rows }
    }

    /// Create the document of the file `file_name` from the text that the
    /// file holds: one row for each line of `contents`.
    pub fn from_text(file_name: &str, contents: &str) -> (document: Self)
        ensures
            document@ == (DocumentText {
                file_name: Some(file_name@),
                rows: lines_from(contents@, 0),
            }),
    {
        let ghost text = contents@;
        let len = contents.unicode_len();
        let mut rows: Vec<Row> = Vec::new();
        let mut from: usize = 0;
        assert(row_texts(rows@) + lines_from(text, 0) =~= lines_from(text, 0));
        while from < len
            invariant
                text == contents@,
                len == text.len(),
                from <= len,
                row_texts(rows@) + lines_from(text, from as int) == lines_from(text, 0),
            decreases len - from,
        {
            let mut end = from;
            while end < len && contents.get_char(end) != '\n'
                invariant
                    text == contents@,
                    len == text.len(),
                    from <= end <= len,
                    line_end(text, end as int) == line_end(text, from as int),
                decreases len - end,
            {
                end += 1;
            }
            let stop = if from < end && end < len && contents.get_char(end - 1) == '\r' {
                end - 1
            } else {
                end
            };
            let ghost before = row_texts(rows@);
            rows.push(Row::from(contents.substring_char(from, stop)));
            proof {
                lemma_line_end_bounds(text, end as int);
                assert(line_end(text, from as int) == end);
                assert(row_texts(rows@) =~= before.push(line_at(text, from as int)));
                let next = if end < len {
                    end + 1
                } else {
                    len as int
                };
                assert(before + (seq![line_at(text, from as int)] + lines_from(text, next))
                    =~= row_texts(rows@) + lines_from(text, next));
            }
            from = if end < len {
                end + 1
            } else {
                len
            };
        }
        assert(row_texts(rows@) + lines_from(text, from as int) =~= row_texts(rows@));
        Self { file_name: Some(file_name.to_owned()), rows }
    }

    /// Delete the cluster at `at`, or join the next row on at the end of a row.
    pub fn delete(&mut self, at: &Position)
        ensures
            final(self)@ == old(self)@.deleted(*at),
    {
        let ghost before = self@;
        if at.row >= self.rows.len() {
            return ;
        }
        if at.col == self.rows[at.row].len() && at.row < self.rows.len() - 1 {
            let next_row = self.rows.remove(at.row + 1);
            self.rows[at.row].append(&next_row);
            assert(self@.rows =~= before.deleted(*at).rows);
            return ;
        }
        self.rows[at.row].delete(at.col);
        assert(self@.rows =~= before.deleted(*at).rows);
    }

    /// Insert `ch` at `at`. A position below the row after the last is an
    /// error and leaves the document as it was.
    pub fn insert(&mut self, at: &Position, ch: char) -> (done: Result<(), InsertError>)
        ensures
            at.row <= old(self)@.rows.len() ==> done.is_ok() && final(self)@ == old(
                self,
            )@.inserted(*at, ch),
            at.row > old(self)@.rows.len() ==> done.is_err() && final(self)@ == old(self)@,
    {
        let ghost before = self@;
        if at.row == self.rows.len() {
            let mut row = Row::default();
            row.insert(0, ch);
            self.rows.push(row);
            assert(self@.rows =~= before.inserted(*at, ch).rows);
            Ok(())
        } else if at.row < self.rows.len() {
            self.rows[at.row].insert(at.col, ch);
            assert(self@.rows =~= before.inserted(*at, ch).rows);
            Ok(())
        } else {
            Err(InsertError)
        }
    }

    /// Insert a line break at `at`.
    pub fn insert_newline(&mut self, at: &Position)
        ensures
            final(self)@ == old(self)@.broken(*at),
    {
        let ghost before = self@;
        if at.row > self.rows.len() {
            return ;
        }
        if at.row == self.rows.len() {
            self.rows.push(Row::default());
            assert(self@.rows =~= before.broken(*at).rows);
            return ;
        }
        let new_row = self.rows[at.row].split(at.col);
        self.rows.insert(at.row + 1, new_row);
        assert(self@.rows =~= before.broken(*at).rows);
    }

    /// The name of the document's file, if it has one.
    pub fn file_name(&self) -> (name: Option<&String>)
        ensures
            self@.file_name == match name {
                Some(name) => Some(name@),
                None => None,
            },
    {
        self.file_name.as_ref()
    }

    /// The row at `index`, if the document has one there.
    pub fn row(&self, index: usize) -> (row: Option<&Row>)
        ensures
            index < self@.rows.len() ==> (row matches Some(row) && row@ == self@.rows[index as int]),
            index >= self@.rows.len() ==> row is None,
    {
        if index < self.rows.len() {
            Some(&self.rows[index])
        } else {
            None
        }
    }

    /// Whether the document has no rows.
    pub fn is_empty(&self) -> (empty: bool)
        ensures
            empty == (self@.rows.len() == 0),
    {
        self.rows.len() == 0
    }

    /// The number of rows.
    pub fn len(&self) -> (len: usize)
        ensures
            len == self@.rows.len(),
    {
        self.rows.len()
    }

    /// The text of the document as it is stored: every row followed by a
    /// line feed.
    pub fn contents(&self) -> (text: String)
        ensures
            text@ == self@.contents(),
    {
        let ghost lines = self@.rows.map_values(|row: Seq<char>| row.push('\n'));
        let mut text = String::new();
        let mut i: usize = 0;
        assert(lines.take(0) =~= Seq::<Seq<char>>::empty());
        while i < self.rows.len()
            invariant
                i <= self.rows@.len(),
                lines == self@.rows.map_values(|row: Seq<char>| row.push('\n')),
                text@ == lines.take(i as int).flatten(),
            decreases self.rows@.len() - i,
        {
            proof {
                crate::segmentation::lemma_flatten_push(lines.take(i as int), lines[i as int]);
                assert(lines.take(i + 1) =~= lines.take(i as int).push(lines[i as int]));
            }
            let row = self.rows[i].contents();
            text.append(row.as_str());
            text.push('\n');
            assert(text@ =~= lines.take(i as int).flatten() + lines[i as int]);
            i += 1;
        }
        assert(lines.take(i as int) =~= lines);
        text
    }
}

impl Default for Document {
    fn default() -> (document: Self)
        ensures
            document@ == (DocumentText { file_name: None, rows: Seq::empty() }),
    {
        let document = Self { file_name: None, rows: Vec::new() };
        assert(document@.rows =~= Seq::<Seq<char>>::empty());
        document
    }
}

} // verus!
