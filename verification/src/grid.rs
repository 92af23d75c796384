//! The in-memory grid of styled character cells.

use vstd::prelude::*;
use crate::color::Color;
use crate::style::Style;

verus! {

/// One character position of the grid, with its colors and style.
#[derive(Clone, Copy, PartialEq, Eq, Structural, Debug)]
pub struct Cell {
    pub ch: char,
    pub bg: Color,
    pub fg: Color,
    pub style: Style,
}

/// The cell every position starts out as: a space with default colors
/// and no style.
pub open spec fn spec_default_cell() -> Cell {
    Cell { ch: ' ', bg: Color::Default, fg: Color::Default, style: Style::Normal }
}

impl Cell {
    /// A space with default colors and no style.
    pub fn default_cell() -> (r: Cell)
        ensures
            r == spec_default_cell(),
    {
        Cell { ch: ' ', bg: Color::Default, fg: Color::Default, style: Style::Normal }
    }
}

/// A write was addressed outside the grid.
#[derive(Clone, Copy, PartialEq, Eq, Structural, Debug)]
pub struct BoundsError {
    pub x: usize,
    pub y: usize,
}

/// A 2D buffer of cells, sized once to the terminal's geometry.
///
/// Every row has exactly `width` cells and there are exactly `height`
/// rows; `(x, y)` addressing is bounds-checked, and an out-of-bounds
/// write changes nothing.
pub struct CellGrid {
    rows: Vec<Vec<Cell>>,
    width: u16,
    height: u16,
}

impl CellGrid {
    /// The grid contents as a sequence of rows of cells.
    pub closed spec fn cells(&self) -> Seq<Seq<Cell>> {
        self.rows@.map_values(|r: Vec<Cell>| r@)
    }

    /// The grid's width in columns.
    pub closed spec fn spec_width(&self) -> u16 {
        self.width
    }

    /// The grid's height in rows.
    pub closed spec fn spec_height(&self) -> u16 {
        self.height
    }

    /// The shape invariant: `height` rows of `width` cells each.
    pub open spec fn well_formed(&self) -> bool {
        &&& self.cells().len() == self.spec_height()
        &&& forall|y: int|
            0 <= y < self.cells().len() ==> (#[trigger] self.cells()[y]).len() == self.spec_width()
    }

    /// A fresh grid of the given geometry, every cell the default cell.
    pub fn new(width: u16, height: u16) -> (r: CellGrid)
        ensures
            r.well_formed(),
            r.spec_width() == width,
            r.spec_height() == height,
            forall|y: int, x: int|
                0 <= y < height && 0 <= x < width ==> #[trigger] r.cells()[y][x]
                    == spec_default_cell(),
    {
        let mut rows: Vec<Vec<Cell>> = Vec::new();
        let mut i: u16 = 0;
        while i < height
            invariant
                i <= height,
                rows@.len() == i,
                forall|y: int|
                    0 <= y < i ==> (#[trigger] rows@[y])@.len() == width,
                forall|y: int, x: int|
                    0 <= y < i && 0 <= x < width ==> #[trigger] rows@[y]@[x]
                        == spec_default_cell(),
            decreases height - i,
        {
            let mut row: Vec<Cell> = Vec::new();
            let mut j: u16 = 0;
            while j < width
                invariant
                    j <= width,
                    row@.len() == j,
                    forall|x: int| 0 <= x < j ==> #[trigger] row@[x] == spec_default_cell(),
                decreases width - j,
            {
                row.push(Cell::default_cell());
                j = j + 1;
            }
            rows.push(row);
            i = i + 1;
        }
        let r = CellGrid { rows, width, height };
        proof {
            assert(forall|y: int|
                0 <= y < r.cells().len() ==> (#[trigger] r.cells()[y]) == r.rows@[y]@);
        }
        r
    }

    /// The width in columns.
    pub fn width(&self) -> (r: u16)
        ensures
            r == self.spec_width(),
    {
        self.width
    }

    /// The height in rows.
    pub fn height(&self) -> (r: u16)
        ensures
            r == self.spec_height(),
    {
        self.height
    }

    /// Writes all four fields of the cell at `(x, y)`.
    ///
    /// In bounds, exactly that cell takes the given character, colors and
    /// style and every other cell is unchanged; out of bounds, the write
    /// fails and the grid is unchanged.
    pub fn set_cell(&mut self, x: usize, y: usize, style: Style, fg: Color, bg: Color, ch: char)
        -> (r: Result<(), BoundsError>)
        requires
            old(self).well_formed(),
        ensures
            final(self).well_formed(),
            final(self).spec_width() == old(self).spec_width(),
            final(self).spec_height() == old(self).spec_height(),
            x < old(self).spec_width() && y < old(self).spec_height() ==> {
                &&& r is Ok
                &&& final(self).cells() == old(self).cells().update(
                    y as int,
                    old(self).cells()[y as int].update(x as int, Cell { ch, bg, fg, style }),
                )
            },
            !(x < old(self).spec_width() && y < old(self).spec_height()) ==> {
                &&& r matches Err(e) && e == (BoundsError { x, y })
                &&& final(self).cells() == old(self).cells()
            },
    {
        if x < self.width as usize && y < self.height as usize {
            let ghost old_cells = self.cells();
            proof {
                assert(self.rows@.len() == self.cells().len());
                assert(self.cells()[y as int] == self.rows@[y as int]@);
            }
            let row = &mut self.rows[y];
            row[x] = Cell { ch, bg, fg, style };
            proof {
                assert(self.cells() =~= old_cells.update(
                    y as int,
                    old_cells[y as int].update(x as int, Cell { ch, bg, fg, style }),
                ));
            }
            Ok(())
        } else {
            Err(BoundsError { x, y })
        }
    }

    /// Reads the cell at `(x, y)`: `Some` of its contents in bounds,
    /// `None` outside.
    pub fn get_cell(&self, x: usize, y: usize) -> (r: Option<Cell>)
        requires
            self.well_formed(),
        ensures
            x < self.spec_width() && y < self.spec_height() ==> r == Some(
                self.cells()[y as int][x as int],
            ),
            !(x < self.spec_width() && y < self.spec_height()) ==> r is None,
    {
        if x < self.width as usize && y < self.height as usize {
            proof {
                assert(self.rows@.len() == self.cells().len());
                assert(self.cells()[y as int] == self.rows@[y as int]@);
            }
            Some(self.rows[y][x])
        } else {
            None
        }
    }

    /// Resets every cell to the default cell; geometry is unchanged.
    pub fn clear(&mut self)
        requires
            old(self).well_formed(),
        ensures
            final(self).well_formed(),
            final(self).spec_width() == old(self).spec_width(),
            final(self).spec_height() == old(self).spec_height(),
            forall|y: int, x: int|
                0 <= y < final(self).spec_height() && 0 <= x < final(self).spec_width()
                    ==> #[trigger] final(self).cells()[y][x] == spec_default_cell(),
    {
        let fresh = CellGrid::new(self.width, self.height);
        self.rows = fresh.rows;
    }

    /// Borrows the row at `y`.
    pub fn row(&self, y: usize) -> (r: &Vec<Cell>)
        requires
            self.well_formed(),
            y < self.spec_height(),
        ensures
            r@ == self.cells()[y as int],
    {
        &self.rows[y]
    }
}

/// What a bounds-checked write leaves at each position: the new cell at
/// `(x, y)`, every other position untouched.
///
/// A grid write followed by a read of the same position yields exactly
/// the written cell, and no other cell changes.
pub proof fn lemma_set_cell_effect(g: Seq<Seq<Cell>>, x: int, y: int, c: Cell)
    requires
        0 <= y < g.len(),
        0 <= x < g[y].len(),
    ensures
        g.update(y, g[y].update(x, c))[y][x] == c,
        forall|j: int, i: int|
            0 <= j < g.len() && 0 <= i < g[j].len() && !(j == y && i == x)
                ==> #[trigger] g.update(y, g[y].update(x, c))[j][i] == g[j][i],
{
}

} // verus!
