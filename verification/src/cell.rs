//! One character slot of the grid.

use crate::layout::Position;
use crate::style::Style;
use vstd::prelude::*;

verus! {

/// What a cell holds: where it sits, the grapheme cluster it shows, and how.
pub ghost struct CellView {
    pub position: Position,
    pub symbol: Seq<char>,
    pub style: Style,
}

/// The text of a blank cell: a single space.
pub open spec fn blank_symbol() -> Seq<char> {
    seq![' ']
}

impl CellView {
    /// This cell with its symbol erased; position and style stay.
    pub open spec fn erased(self) -> CellView {
        CellView { symbol: blank_symbol(), ..self }
    }

    /// A blank cell in the default style at `position`.
    pub open spec fn blank_at(position: Position) -> CellView {
        CellView { position, symbol: blank_symbol(), style: Style::plain() }
    }
}

/// A single cell within the frame (viewport). Each cell has a position, symbol (the shown
/// character) and style.
#[derive(Debug)]
pub struct Cell {
    position: Position,
    symbol: String,
    style: Style,
}

impl View for Cell {
    type V = CellView;

    closed spec fn view(&self) -> CellView {
        CellView { position: self.position, symbol: self.symbol@, style: self.style }
    }
}

/// The views of `cells`, in order.
pub open spec fn cell_views(cells: Seq<Cell>) -> Seq<CellView> {
    Seq::new(cells.len(), |i: int| cells[i]@)
}

/// The views of the cells that `cells` refers to, in order.
pub open spec fn cell_ref_views(cells: Seq<&Cell>) -> Seq<CellView> {
    Seq::new(cells.len(), |i: int| cells[i]@)
}

impl Cell {
    /// Create a new Cell.
    pub fn new(col: usize, row: usize, symbol: &str, style: Style) -> (cell: Self)
        ensures
            cell@ == (CellView { position: Position { col, row }, symbol: symbol@, style }),
    {
        Self { position: Position::new(col, row), symbol: symbol.to_owned(), style }
    }

    /// Returns the Position of the Cell.
    pub fn position(&self) -> (position: &Position)
        ensures
            *position == self@.position,
    {
        &self.position
    }

    /// Reset the Cell's symbol to an empty space.
    pub fn reset(&mut self)
        ensures
            final(self)@ == old(self)@.erased(),
    {
        proof {
            reveal_strlit(" ");
        }
        self.symbol = " ".to_owned();
        assert(self.symbol@ =~= blank_symbol());
    }

    /// Returns the Cell's symbol.
    pub fn symbol(&self) -> (symbol: &String)
        ensures
            symbol@ == self@.symbol,
    {
        &self.symbol
    }

    /// Returns the Cell's style.
    pub fn style(&self) -> (style: &Style)
        ensures
            *style == self@.style,
    {
        &self.style
    }
}

impl Clone for Cell {
    fn clone(&self) -> (cell: Self)
        ensures
            cell@ == self@,
    {
        Self { position: self.position, symbol: self.symbol.clone(), style: self.style }
    }
}

impl PartialEq for Cell {
    fn eq(&self, other: &Self) -> (equal: bool) {
        self.position == other.position && self.symbol == other.symbol && self.style
            == other.style
    }
}

impl vstd::std_specs::cmp::PartialEqSpecImpl for Cell {
    open spec fn obeys_eq_spec() -> bool {
        true
    }

    open spec fn eq_spec(&self, other: &Self) -> bool {
        self@ == other@
    }
}

} // verus!
