//! The frame buffer: a grid snapshot of cells for one rendered frame.
//!
//! All drawing within the editor is mapped to a buffer. A buffer can then be
//! diffed with another buffer to find the cells that changed since the last
//! draw, so that only those are sent to the screen.

use crate::cell::{blank_symbol, cell_ref_views, cell_views, Cell, CellView};
use crate::layout::{lemma_index_of_offsets, lemma_position_index_roundtrip, Position, Rect};
use crate::segmentation::{grapheme_clusters, split_graphemes, texts};
use crate::style::Style;
use vstd::prelude::*;

verus! {

/// What a frame buffer holds: the region it covers and its cells in row-major order.
pub ghost struct FrameBufferView {
    pub area: Rect,
    pub cells: Seq<CellView>,
}

impl FrameBufferView {
    /// The buffer's invariant: one cell for each position of an addressable
    /// region, each cell at the position that its index stands for.
    pub open spec fn wf(self) -> bool {
        &&& self.area.addressable()
        &&& self.cells.len() == self.area.cell_count()
        &&& forall|i: int|
            0 <= i < self.cells.len() ==> (#[trigger] self.cells[i]).position
                == self.area.position_at(i)
    }

    /// A buffer over `area` whose cells all show `symbol` in the default style.
    pub open spec fn filled(area: Rect, symbol: Seq<char>) -> FrameBufferView {
        FrameBufferView {
            area,
            cells: Seq::new(
                area.cell_count() as nat,
                |i: int| CellView { position: area.position_at(i), symbol, style: Style::plain() },
            ),
        }
    }

    /// A buffer over `area` whose cells are all blank.
    pub open spec fn blank(area: Rect) -> FrameBufferView {
        Self::filled(area, blank_symbol())
    }

    /// Whether every cell of the buffer shows a blank.
    pub open spec fn is_erased(self) -> bool {
        forall|i: int| 0 <= i < self.cells.len() ==> (#[trigger] self.cells[i]).symbol
            == blank_symbol()
    }

    /// This buffer with the content of every cell erased; positions and styles stay.
    pub open spec fn erased(self) -> FrameBufferView {
        FrameBufferView {
            area: self.area,
            cells: Seq::new(self.cells.len(), |i: int| self.cells[i].erased()),
        }
    }

    /// This buffer after an attempt to write `clusters` to row `line` in
    /// `style`: written as by `with_line` where the buffer has such a row, and
    /// untouched where it has none.
    pub open spec fn written(self, line: usize, clusters: Seq<Seq<char>>, style: Style)
        -> FrameBufferView {
        if line < self.area.height {
            self.with_line(line as int, clusters, style)
        } else {
            self
        }
    }

    /// This buffer after `clusters` were written to row `line` in `style`: the
    /// row's leading cells show one cluster each, clusters beyond the row's
    /// width are dropped, and the cells that no cluster reaches are blank in
    /// the default style. All other rows are untouched.
    pub open spec fn with_line(self, line: int, clusters: Seq<Seq<char>>, style: Style)
        -> FrameBufferView {
        let start = line * self.area.width;
        FrameBufferView {
            area: self.area,
            cells: Seq::new(
                self.cells.len(),
                |i: int|
                    if start <= i < start + self.area.width {
                        if i - start < clusters.len() {
                            CellView {
                                position: self.cells[i].position,
                                symbol: clusters[i - start],
                                style,
                            }
                        } else {
                            CellView::blank_at(self.cells[i].position)
                        }
                    } else {
                        self.cells[i]
                    },
            ),
        }
    }
}

/// The indices at which `next` differs from `previous`, in ascending order.
pub open spec fn changed_indices(previous: Seq<CellView>, next: Seq<CellView>) -> Seq<int>
    recommends
        previous.len() == next.len(),
    decreases next.len(),
{
    if next.len() == 0 || previous.len() == 0 {
        Seq::empty()
    } else {
        let earlier = changed_indices(previous.drop_last(), next.drop_last());
        if previous.last() == next.last() {
            earlier
        } else {
            earlier.push(next.len() - 1)
        }
    }
}

/// The cells of `next` that differ from the cell of `previous` at the same
/// index, in ascending order of that index.
pub open spec fn changed_cells(previous: Seq<CellView>, next: Seq<CellView>) -> Seq<CellView>
    recommends
        previous.len() == next.len(),
    decreases next.len(),
{
    if next.len() == 0 || previous.len() == 0 {
        Seq::empty()
    } else {
        let earlier = changed_cells(previous.drop_last(), next.drop_last());
        if previous.last() == next.last() {
            earlier
        } else {
            earlier.push(next.last())
        }
    }
}

/// Raised by the buffer when trying to access a cell that is out of bounds.
#[derive(Debug, Clone, Copy, PartialEq, Eq, Structural)]
pub struct OutOfBoundsError;

impl OutOfBoundsError {
    /// The message that describes the error.
    pub fn message(&self) -> (text: String)
        ensures
            text@ == "trying to access index out of bounds"@,
    {
        "trying to access index out of bounds".to_owned()
    }
}

/// A mapping of Cells for a given area.
#[derive(Debug)]
pub struct FrameBuffer {
    area: Rect,
    cells: Vec<Cell>,
}

impl View for FrameBuffer {
    type V = FrameBufferView;

    closed spec fn view(&self) -> FrameBufferView {
        FrameBufferView { area: self.area, cells: cell_views(self.cells@) }
    }
}

impl FrameBuffer {
    /// Whether the buffer's invariant holds.
    pub open spec fn wf(&self) -> bool {
        self@.wf()
    }

    /// The region that the buffer covers.
    pub fn area(&self) -> (area: Rect)
        ensures
            area == self@.area,
    {
        self.area
    }

    /// Create a buffer with all cells having the symbol " ".
    pub fn empty(area: Rect) -> (buffer: Self)
        requires
            area.addressable(),
        ensures
            buffer.wf(),
            buffer@ == FrameBufferView::blank(area),
    {
        proof {
            reveal_strlit(" ");
        }
        assert(" "@ =~= blank_symbol());
        Self::filled(area, " ")
    }

    /// Create a buffer with all cells set to the given symbol.
    pub fn filled(area: Rect, symbol: &str) -> (buffer: Self)
        requires
            area.addressable(),
        ensures
            buffer.wf(),
            buffer@ == FrameBufferView::filled(area, symbol@),
    {
        let mut cells: Vec<Cell> = Vec::with_capacity(area.area());
        let ghost model = FrameBufferView::filled(area, symbol@);
        let mut row: usize = 0;
        while row < area.height
            invariant
                area.addressable(),
                model == FrameBufferView::filled(area, symbol@),
                row <= area.height,
                cells@.len() == row * area.width,
                forall|i: int| 0 <= i < cells@.len() ==> (#[trigger] cells@[i])@ == model.cells[i],
            decreases area.height - row,
        {
            let mut col: usize = 0;
            while col < area.width
                invariant
                    area.addressable(),
                    model == FrameBufferView::filled(area, symbol@),
                    row < area.height,
                    col <= area.width,
                    cells@.len() == row * area.width + col,
                    forall|i: int|
                        0 <= i < cells@.len() ==> (#[trigger] cells@[i])@ == model.cells[i],
                decreases area.width - col,
            {
                proof {
                    lemma_index_of_offsets(area, row as int, col as int);
                }
                cells.push(
                    Cell::new(
                        area.position.col + col,
                        area.position.row + row,
                        symbol,
                        Style::default(),
                    ),
                );
                col += 1;
            }
            assert(row * area.width + area.width == (row + 1) * area.width) by (nonlinear_arith);
            row += 1;
        }
        assert(cells@.len() == area.cell_count()) by (nonlinear_arith)
            requires
                cells@.len() == row * area.width,
                row == area.height,
                area.cell_count() == area.width * area.height,
        ;
        let buffer = Self { cells, area };
        assert(buffer@.cells =~= model.cells);
        buffer
    }

    /// Diff the current buffer with the other buffer to get a list of changed cells:
    /// the cells of `other` that differ from the cell of `self` at the same
    /// index, in ascending index order.
    pub fn diff<'a>(&self, other: &'a FrameBuffer) -> (changes: Vec<&'a Cell>)
        requires
            self.wf(),
            other.wf(),
            self@.area == other@.area,
        ensures
            cell_ref_views(changes@) == changed_cells(self@.cells, other@.cells),
    {
        let mut updates: Vec<&'a Cell> = Vec::new();
        let mut i: usize = 0;
        assert(self@.cells.take(0) =~= Seq::empty());
        assert(other@.cells.take(0) =~= Seq::empty());
        while i < other.cells.len()
            invariant
                self.cells@.len() == other.cells@.len(),
                i <= other.cells@.len(),
                cell_ref_views(updates@) =~= changed_cells(
                    self@.cells.take(i as int),
                    other@.cells.take(i as int),
                ),
            decreases other.cells@.len() - i,
        {
            let ghost before = cell_ref_views(updates@);
            assert(self@.cells.take(i + 1).drop_last() =~= self@.cells.take(i as int));
            assert(other@.cells.take(i + 1).drop_last() =~= other@.cells.take(i as int));
            assert(self@.cells.take(i + 1).last() == self.cells@[i as int]@);
            assert(other@.cells.take(i + 1).last() == other.cells@[i as int]@);
            if !(self.cells[i] == other.cells[i]) {
                updates.push(&other.cells[i]);
                assert(cell_ref_views(updates@) =~= before.push(other.cells@[i as int]@));
            }
            i += 1;
        }
        assert(self@.cells.take(i as int) =~= self@.cells);
        assert(other@.cells.take(i as int) =~= other@.cells);
        updates
    }

    /// The index of the cell at `position`, or an error if the position lies
    /// outside the buffer's area.
    pub fn index_of(&self, position: &Position) -> (index: Result<usize, OutOfBoundsError>)
        requires
            self.wf(),
        ensures
            match index {
                Ok(i) => self@.area.encloses(*position) && i == self@.area.index_at(*position)
                    && i < self@.cells.len(),
                Err(_) => !self@.area.encloses(*position),
            },
    {
        if self.area.contains(position) {
            let row = position.row - self.area.position.row;
            let col = position.col - self.area.position.col;
            proof {
                lemma_index_of_offsets(self.area, row as int, col as int);
            }
            Ok(row * self.area.width + col)
        } else {
            Err(OutOfBoundsError)
        }
    }

    /// The cell at `position`, or an error if the position lies outside the
    /// buffer's area.
    pub fn get(&self, position: &Position) -> (cell: Result<&Cell, OutOfBoundsError>)
        requires
            self.wf(),
        ensures
            match cell {
                Ok(cell) => self@.area.encloses(*position) && cell@
                    == self@.cells[self@.area.index_at(*position)],
                Err(_) => !self@.area.encloses(*position),
            },
    {
        match self.index_of(position) {
            Ok(index) => Ok(&self.cells[index]),
            Err(error) => Err(error),
        }
    }

    /// Reset the buffer to its empty state: every cell shows a single space,
    /// while positions and styles are kept.
    pub fn reset(&mut self)
        requires
            old(self).wf(),
        ensures
            final(self).wf(),
            final(self)@ == old(self)@.erased(),
    {
        let mut i: usize = 0;
        while i < self.cells.len()
            invariant
                self.area == old(self).area,
                self.cells@.len() == old(self).cells@.len(),
                i <= self.cells@.len(),
                forall|j: int| 0 <= j < i ==> (#[trigger] self.cells@[j])@ == old(self).cells@[j]@.erased(),
                forall|j: int|
                    i <= j < self.cells@.len() ==> (#[trigger] self.cells@[j])@ == old(
                        self,
                    ).cells@[j]@,
            decreases self.cells@.len() - i,
        {
            self.cells[i].reset();
            i += 1;
        }
        assert(self@.cells =~= old(self)@.erased().cells);
    }

    /// Write a line into the buffer with the given style. This overwrites the
    /// cells of row `line_number`, one grapheme cluster per cell. If the
    /// string does not fill the row, the rest of the row is cleared; if it
    /// is longer than the row, the excess is dropped. A row outside the buffer
    /// is an error and leaves the buffer as it was.
    pub fn write_line(&mut self, line_number: usize, string: &str, style: &Style) -> (written:
        Result<(), OutOfBoundsError>)
        requires
            old(self).wf(),
        ensures
            final(self).wf(),
            written.is_ok() == (line_number < old(self)@.area.height),
            final(self)@ == old(self)@.written(line_number, grapheme_clusters(string@), *style),
    {
        let clusters = split_graphemes(string);
        self.write_clusters(line_number, &clusters, style)
    }

    /// Write `clusters` into row `line_number`, one per cell, as `write_line`
    /// does with the clusters of its string.
    pub fn write_clusters(&mut self, line_number: usize, clusters: &Vec<String>, style: &Style)
        -> (written: Result<(), OutOfBoundsError>)
        requires
            old(self).wf(),
        ensures
            final(self).wf(),
            written.is_ok() == (line_number < old(self)@.area.height),
            final(self)@ == old(self)@.written(line_number, texts(clusters@), *style),
    {
        if line_number >= self.area.height {
            return Err(OutOfBoundsError);
        }
        let width = self.area.width;
        let ghost target = old(self)@.with_line(line_number as int, texts(clusters@), *style);
        proof {
            if width > 0 {
                lemma_index_of_offsets(self.area, line_number as int, 0);
                lemma_index_of_offsets(self.area, line_number as int, width - 1);
            }
            reveal_strlit(" ");
            assert(" "@ =~= blank_symbol());
        }
        assert(line_number * width <= usize::MAX) by (nonlinear_arith)
            requires
                line_number < self.area.height,
                width == self.area.width,
                self.area.width * self.area.height <= usize::MAX,
        ;
        let start = line_number * width;
        let mut col: usize = 0;
        while col < width
            invariant
                self.area == old(self).area,
                width == self.area.width,
                self.cells@.len() == old(self).cells@.len(),
                old(self).wf(),
                col <= width,
                start == line_number * width,
                width > 0 ==> start + width <= self.cells@.len(),
                target == old(self)@.with_line(line_number as int, texts(clusters@), *style),
                " "@ == blank_symbol(),
                forall|j: int|
                    start <= j < start + col ==> (#[trigger] self.cells@[j])@ == target.cells[j],
                forall|j: int|
                    0 <= j < self.cells@.len() && !(start <= j < start + col) ==> (
                    #[trigger] self.cells@[j])@ == old(self).cells@[j]@,
            decreases width - col,
        {
            let index = start + col;
            let position = *self.cells[index].position();
            assert(position == old(self)@.cells[index as int].position);
            let cell = if col < clusters.len() {
                Cell::new(position.col, position.row, clusters[col].as_str(), *style)
            } else {
                Cell::new(position.col, position.row, " ", Style::default())
            };
            assert(cell@ == target.cells[index as int]);
            self.cells[index] = cell;
            col += 1;
        }
        assert(self@.cells =~= target.cells);
        assert(target.wf());
        Ok(())
    }
}

/// A diff holds exactly the cells that changed, in ascending index order.
///
/// For two cell sequences of one length, the changed indices are strictly
/// ascending, each names an index at which the sequences differ, every such
/// index is among them, and the changed cells are the cells of `next` at
/// those indices, in the same order.
pub proof fn lemma_diff_is_exact(previous: Seq<CellView>, next: Seq<CellView>)
    requires
        previous.len() == next.len(),
    ensures
        changed_cells(previous, next).len() == changed_indices(previous, next).len(),
        forall|k: int|
            0 <= k < changed_indices(previous, next).len() ==> {
                let i = #[trigger] changed_indices(previous, next)[k];
                &&& 0 <= i < next.len()
                &&& previous[i] != next[i]
                &&& changed_cells(previous, next)[k] == next[i]
            },
        forall|j: int, k: int|
            0 <= j < k < changed_indices(previous, next).len() ==> changed_indices(
                previous,
                next,
            )[j] < changed_indices(previous, next)[k],
        forall|i: int|
            0 <= i < next.len() && previous[i] != next[i] ==> changed_indices(
                previous,
                next,
            ).contains(i),
    decreases next.len(),
{
    if next.len() > 0 {
        let shorter_previous = previous.drop_last();
        let shorter_next = next.drop_last();
        lemma_diff_is_exact(shorter_previous, shorter_next);
        let earlier = changed_indices(shorter_previous, shorter_next);
        let indices = changed_indices(previous, next);
        let last = next.len() - 1;
        assert forall|i: int| 0 <= i < next.len() && previous[i] != next[i] implies indices.contains(
            i,
        ) by {
            if i < last {
                assert(shorter_previous[i] != shorter_next[i]);
                let k = choose|k: int| 0 <= k < earlier.len() && earlier[k] == i;
                assert(indices[k] == i);
            } else {
                assert(indices[indices.len() - 1] == i);
            }
        }
    }
}

/// Diffing a buffer against an identical one yields no cells.
pub proof fn lemma_diff_of_identical_cells_is_empty(cells: Seq<CellView>)
    ensures
        changed_cells(cells, cells) == Seq::<CellView>::empty(),
    decreases cells.len(),
{
    if cells.len() > 0 {
        lemma_diff_of_identical_cells_is_empty(cells.drop_last());
    }
}

/// Two blank buffers over the same area have an empty diff, whatever the area.
pub proof fn lemma_diff_of_blank_buffers_is_empty(area: Rect)
    ensures
        changed_cells(FrameBufferView::blank(area).cells, FrameBufferView::blank(area).cells)
            == Seq::<CellView>::empty(),
{
    lemma_diff_of_identical_cells_is_empty(FrameBufferView::blank(area).cells);
}

/// Two buffers over the same area that were filled with the same symbol have
/// an empty diff.
pub proof fn lemma_diff_of_equally_filled_buffers_is_empty(area: Rect, symbol: Seq<char>)
    ensures
        changed_cells(
            FrameBufferView::filled(area, symbol).cells,
            FrameBufferView::filled(area, symbol).cells,
        ) == Seq::<CellView>::empty(),
{
    lemma_diff_of_identical_cells_is_empty(FrameBufferView::filled(area, symbol).cells);
}

/// The cells of a diff between two buffers of one area come in row-major
/// order: each lies at a later index of the area than the one before it.
pub proof fn lemma_diff_is_row_major(previous: FrameBufferView, next: FrameBufferView)
    requires
        previous.wf(),
        next.wf(),
        previous.area == next.area,
    ensures
        forall|j: int, k: int|
            0 <= j < k < changed_cells(previous.cells, next.cells).len() ==> next.area.index_at(
                changed_cells(previous.cells, next.cells)[j].position,
            ) < next.area.index_at(changed_cells(previous.cells, next.cells)[k].position),
{
    lemma_diff_is_exact(previous.cells, next.cells);
    let indices = changed_indices(previous.cells, next.cells);
    let changes = changed_cells(previous.cells, next.cells);
    assert forall|j: int, k: int| 0 <= j < k < changes.len() implies next.area.index_at(
        changes[j].position,
    ) < next.area.index_at(changes[k].position) by {
        let a = indices[j];
        let b = indices[k];
        assert(changes[j] == next.cells[a]);
        assert(changes[k] == next.cells[b]);
        lemma_position_index_roundtrip(next.area, a);
        lemma_position_index_roundtrip(next.area, b);
    }
}

/// Writing a line that is shorter than the row leaves the rest of the row
/// blank in the default style, so that against a blank buffer only cells
/// that hold a cluster of the line can show up in a diff.
pub proof fn lemma_short_line_blanks_rest_of_row(
    buffer: FrameBufferView,
    line: int,
    clusters: Seq<Seq<char>>,
    style: Style,
)
    requires
        buffer.wf(),
        0 <= line < buffer.area.height,
        clusters.len() < buffer.area.width,
    ensures
        forall|i: int|
            line * buffer.area.width + clusters.len() <= i < line * buffer.area.width
                + buffer.area.width ==> {
                &&& #[trigger] buffer.with_line(line, clusters, style).cells[i]
                    == FrameBufferView::blank(buffer.area).cells[i]
                &&& !changed_indices(
                    FrameBufferView::blank(buffer.area).cells,
                    buffer.with_line(line, clusters, style).cells,
                ).contains(i)
            },
{
    let written = buffer.with_line(line, clusters, style);
    let blank = FrameBufferView::blank(buffer.area);
    let start = line * buffer.area.width;
    lemma_diff_is_exact(blank.cells, written.cells);
    assert forall|i: int| start + clusters.len() <= i < start + buffer.area.width implies {
        &&& #[trigger] written.cells[i] == blank.cells[i]
        &&& !changed_indices(blank.cells, written.cells).contains(i)
    } by {
        lemma_index_of_offsets(buffer.area, line, i - start);
    }
}

/// An erased buffer shows blanks only, and erasing it once more changes
/// nothing. A blank buffer is erased from the start.
pub proof fn lemma_erased_is_erased(buffer: FrameBufferView)
    ensures
        buffer.erased().is_erased(),
        buffer.is_erased() ==> buffer.erased() == buffer,
        FrameBufferView::blank(buffer.area).is_erased(),
{
    if buffer.is_erased() {
        assert(buffer.erased().cells =~= buffer.cells);
    }
}

/// After a reset a buffer shows what a blank buffer of the same area shows:
/// cell by cell the symbols and positions agree. Styles survive a reset, so
/// the diff against the blank buffer is empty where every style is the default.
pub proof fn lemma_reset_matches_blank_content(buffer: FrameBufferView)
    requires
        buffer.wf(),
    ensures
        buffer.erased().wf(),
        forall|i: int|
            0 <= i < buffer.cells.len() ==> {
                &&& (#[trigger] buffer.erased().cells[i]).symbol == FrameBufferView::blank(
                    buffer.area,
                ).cells[i].symbol
                &&& buffer.erased().cells[i].position == FrameBufferView::blank(
                    buffer.area,
                ).cells[i].position
            },
        (forall|i: int| 0 <= i < buffer.cells.len() ==> (#[trigger] buffer.cells[i]).style
            == Style::plain()) ==> changed_cells(
            FrameBufferView::blank(buffer.area).cells,
            buffer.erased().cells,
        ) == Seq::<CellView>::empty(),
{
    let blank = FrameBufferView::blank(buffer.area);
    let erased = buffer.erased();
    if forall|i: int| 0 <= i < buffer.cells.len() ==> (#[trigger] buffer.cells[i]).style
        == Style::plain() {
        assert(erased.cells =~= blank.cells);
        lemma_diff_of_identical_cells_is_empty(blank.cells);
    }
}

} // verus!
