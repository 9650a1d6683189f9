//! Grid primitives: positions and rectangular regions of the character grid.

use vstd::prelude::*;

verus! {

/// A position on the character grid, counted in cells from the top-left corner.
#[derive(Debug, Default, Clone, Copy, PartialEq, Eq, Structural)]
pub struct Position {
    pub col: usize,
    pub row: usize,
}

impl Position {
    /// Create a new Position.
    pub fn new(col: usize, row: usize) -> (position: Self)
        ensures
            position == (Position { col, row }),
    {
        Self { col, row }
    }
}

impl From<(usize, usize)> for Position {
    fn from(pair: (usize, usize)) -> (position: Self) {
        Self::new(pair.0, pair.1)
    }
}

impl vstd::std_specs::convert::FromSpecImpl<(usize, usize)> for Position {
    open spec fn obeys_from_spec() -> bool {
        true
    }

    open spec fn from_spec(pair: (usize, usize)) -> Self {
        Position { col: pair.0, row: pair.1 }
    }
}

/// `value + amount`, held at the largest `usize`.
pub open spec fn saturating_sum(value: usize, amount: usize) -> usize {
    if value + amount > usize::MAX {
        usize::MAX
    } else {
        (value + amount) as usize
    }
}

/// `value - amount`, held at zero.
pub open spec fn saturating_difference(value: usize, amount: usize) -> usize {
    if value < amount {
        0
    } else {
        (value - amount) as usize
    }
}

/// A rectangular region of the grid: `width` columns and `height` rows whose
/// top-left cell sits at `position`.
#[derive(Debug, Default, Clone, Copy, PartialEq, Eq, Structural)]
pub struct Rect {
    pub width: usize,
    pub height: usize,
    pub position: Position,
}

impl Rect {
    /// The number of cells that the region covers.
    pub open spec fn cell_count(self) -> int {
        self.width * self.height
    }

    /// The first column to the right of the region.
    pub open spec fn right_edge(self) -> int {
        self.position.col + self.width
    }

    /// The first row below the region.
    pub open spec fn bottom_edge(self) -> int {
        self.position.row + self.height
    }

    /// Whether `position` lies inside the region on both axes.
    pub open spec fn encloses(self, position: Position) -> bool {
        &&& self.position.col <= position.col < self.right_edge()
        &&& self.position.row <= position.row < self.bottom_edge()
    }

    /// Whether every cell of the region can be counted and addressed with machine
    /// integers: the cell count and both far edges fit in `usize`.
    pub open spec fn addressable(self) -> bool {
        &&& self.cell_count() <= usize::MAX
        &&& self.right_edge() <= usize::MAX
        &&& self.bottom_edge() <= usize::MAX
    }

    /// The linear, row-major index of `position` among the cells of the region.
    pub open spec fn index_at(self, position: Position) -> int {
        (position.row - self.position.row) * self.width + (position.col - self.position.col)
    }

    /// The position of the cell with the row-major index `index`.
    pub open spec fn position_at(self, index: int) -> Position {
        Position {
            col: (self.position.col + index % (self.width as int)) as usize,
            row: (self.position.row + index / (self.width as int)) as usize,
        }
    }

    /// Create a new Rect with default Position (0, 0).
    pub fn new(width: usize, height: usize) -> (rect: Self)
        ensures
            rect == (Rect { width, height, position: Position { col: 0, row: 0 } }),
    {
        Self { width, height, position: Position::new(0, 0) }
    }

    /// Create a new Rect with a set Position.
    pub fn positioned(width: usize, height: usize, col: usize, row: usize) -> (rect: Self)
        ensures
            rect == (Rect { width, height, position: Position { col, row } }),
    {
        Self { width, height, position: Position::new(col, row) }
    }

    /// Returns the area of the Rect, saturating at the largest representable count.
    pub fn area(&self) -> (area: usize)
        ensures
            area == if self.cell_count() <= usize::MAX {
                self.cell_count()
            } else {
                usize::MAX as int
            },
    {
        match self.width.checked_mul(self.height) {
            Some(area) => area,
            None => usize::MAX,
        }
    }

    /// Returns the leftmost possible value of the Rect.
    pub fn left(&self) -> (left: usize)
        ensures
            left == self.position.col,
    {
        self.position.col
    }

    /// Returns the rightmost possible value of the Rect.
    pub fn right(&self) -> (right: usize)
        requires
            self.right_edge() <= usize::MAX,
        ensures
            right == self.right_edge(),
    {
        self.position.col + self.width
    }

    /// Returns the topmost possible value of the Rect.
    pub fn top(&self) -> (top: usize)
        ensures
            top == self.position.row,
    {
        self.position.row
    }

    /// Returns the bottommost possible value of the Rect.
    pub fn bottom(&self) -> (bottom: usize)
        requires
            self.bottom_edge() <= usize::MAX,
        ensures
            bottom == self.bottom_edge(),
    {
        self.position.row + self.height
    }

    /// Whether the region can back a buffer of cells on this machine.
    pub fn is_addressable(&self) -> (fits: bool)
        ensures
            fits == self.addressable(),
    {
        self.width.checked_mul(self.height).is_some() && self.position.col.checked_add(
            self.width,
        ).is_some() && self.position.row.checked_add(self.height).is_some()
    }

    /// Check if the given position is within the Rect, taking the Rect's Position into
    /// consideration.
    pub fn contains(&self, position: &Position) -> (inside: bool)
        ensures
            inside == self.encloses(*position),
    {
        position.col >= self.position.col && position.col - self.position.col < self.width
            && position.row >= self.position.row && position.row - self.position.row
            < self.height
    }
}

/// The cell at column offset `col` of row offset `row` has the row-major index
/// `row * width + col`, and that index leads back to the same offsets.
pub proof fn lemma_index_of_offsets(area: Rect, row: int, col: int)
    requires
        0 <= row < area.height,
        0 <= col < area.width,
    ensures
        0 <= row * area.width + col < area.cell_count(),
        (row * area.width + col) / (area.width as int) == row,
        (row * area.width + col) % (area.width as int) == col,
{
    let width = area.width as int;
    let height = area.height as int;
    assert(row * width + col < height * width) by (nonlinear_arith)
        requires
            0 <= row < height,
            0 <= col < width,
    ;
    assert(0 <= row * width + col) by (nonlinear_arith)
        requires
            0 <= row,
            0 <= col,
            0 < width,
    ;
    assert(area.cell_count() == height * width) by (nonlinear_arith)
        requires
            area.cell_count() == width * height,
    ;
    vstd::arithmetic::div_mod::lemma_fundamental_div_mod_converse(
        row * width + col,
        width,
        row,
        col,
    );
}

/// Positions and row-major indices of an addressable region correspond one to one.
pub proof fn lemma_position_index_roundtrip(area: Rect, index: int)
    requires
        area.addressable(),
        0 <= index < area.cell_count(),
    ensures
        area.encloses(area.position_at(index)),
        area.index_at(area.position_at(index)) == index,
{
    let width = area.width as int;
    let height = area.height as int;
    assert(width > 0 && height > 0) by (nonlinear_arith)
        requires
            0 <= index < width * height,
            0 <= width,
            0 <= height,
    ;
    let row = index / width;
    let col = index % width;
    vstd::arithmetic::div_mod::lemma_fundamental_div_mod(index, width);
    vstd::arithmetic::div_mod::lemma_mod_bound(index, width);
    assert(0 <= row < height) by (nonlinear_arith)
        requires
            0 <= index < width * height,
            index == width * row + col,
            0 <= col < width,
    ;
    assert(width * row == row * width) by (nonlinear_arith);
}

} // verus!
