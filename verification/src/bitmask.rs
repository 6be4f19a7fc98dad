//! Neighbour queries and the 4-bit mask that combines them.
//!
//! The answer of every query is a function of the grid's cells, a
//! `Map<Coord, bool>`, and of the query's arguments. The queried cell and
//! its neighbours are treated differently on purpose: a mask is only
//! computed for a cell that the grid holds, while a neighbour that the grid
//! does not hold simply counts as unset.

use crate::coord::{Coord, Offset};
use crate::grid::NeighborGrid;
use crate::laws::lemma_blank_cells_counted;
use vstd::prelude::*;

verus! {

/// Why a mask could not be computed.
#[derive(Clone, Copy, Debug, PartialEq, Eq, Structural)]
pub enum GridError {
    /// The queried position is not a cell of the grid.
    NotFound,
}

impl GridError {
    /// A description of the error for a reader.
    pub fn message(&self) -> (text: String)
        ensures
            text@ == "position not in grid"@,
    {
        "position not in grid".to_owned()
    }
}

/// The step to the top neighbour, counted in bit 0 of a mask: `y` grows by
/// one. On a grid drawn with `y` growing downward that is the cell drawn
/// underneath.
pub open spec fn top_step() -> Offset {
    Offset { x: 0, y: 1 }
}

/// The step to the left neighbour, counted in bit 1 of a mask.
pub open spec fn left_step() -> Offset {
    Offset { x: -1i32, y: 0 }
}

/// The step to the right neighbour, counted in bit 2 of a mask.
pub open spec fn right_step() -> Offset {
    Offset { x: 1, y: 0 }
}

/// The step to the bottom neighbour, counted in bit 3 of a mask: `y`
/// shrinks by one.
pub open spec fn bottom_step() -> Offset {
    Offset { x: 0, y: -1i32 }
}

/// The cells of a freshly initialised grid: every coordinate of the
/// rectangle `[0, size.x) x [0, size.y)`, each unset.
pub open spec fn blank_cells(size: Coord) -> Map<Coord, bool> {
    Map::new(|c: Coord| c.x < size.x && c.y < size.y, |c: Coord| false)
}

/// Whether the cell `step` away from `origin` is set. A target that is not
/// a cell of the grid, or whose coordinates would leave the unsigned 32-bit
/// range, is unset.
pub open spec fn neighbor_set(cells: Map<Coord, bool>, origin: Coord, step: Offset) -> bool {
    match origin.shifted(step) {
        Some(target) => cells.contains_key(target) && cells[target],
        None => false,
    }
}

/// A neighbour's flag as the number 0 or 1.
pub open spec fn neighbor_bit(cells: Map<Coord, bool>, origin: Coord, step: Offset) -> int {
    if neighbor_set(cells, origin, step) {
        1
    } else {
        0
    }
}

/// The mask of the four orthogonal neighbours of `position`:
/// top counts 1, left 2, right 4 and bottom 8.
pub open spec fn mask_value(cells: Map<Coord, bool>, position: Coord) -> int {
    neighbor_bit(cells, position, top_step()) + 2 * neighbor_bit(cells, position, left_step()) + 4
        * neighbor_bit(cells, position, right_step()) + 8 * neighbor_bit(
        cells,
        position,
        bottom_step(),
    )
}

/// What a mask query answers: the mask where `position` is a cell of the
/// grid, and `NotFound` where it is not.
pub open spec fn mask_result(cells: Map<Coord, bool>, position: Coord) -> Result<i32, GridError> {
    if cells.contains_key(position) {
        Ok(mask_value(cells, position) as i32)
    } else {
        Err(GridError::NotFound)
    }
}

/// Neighbour lookups and autotile masks on a grid of flags.
pub trait BitMask: Sized {
    /// The cells that the queries read.
    spec fn cells(&self) -> Map<Coord, bool>;

    /// A grid with one unset cell for each coordinate of the rectangle
    /// `[0, size.x) x [0, size.y)`.
    fn init(size: Coord) -> (grid: Self)
        ensures
            grid.cells() == blank_cells(size),
            grid.cells().dom().finite(),
            grid.cells().dom().len() == size.x * size.y,
    ;

    /// Whether the cell at `from + direction` is set.
    fn get_in_direction_from(&self, from: Coord, direction: Offset) -> (set: bool)
        ensures
            set == neighbor_set(self.cells(), from, direction),
    ;

    /// The mask of `position`, or `NotFound` if `position` is no cell.
    fn get_bitmask(&self, position: Coord) -> (mask: Result<i32, GridError>)
        ensures
            mask == mask_result(self.cells(), position),
            mask is Ok <==> self.cells().contains_key(position),
            mask matches Ok(m) ==> 0 <= m <= 15,
    ;

    /// 1 if the top neighbour of `position`, the cell at `(x, y + 1)`, is
    /// set, else 0.
    fn get_top_from(&self, position: Coord) -> (bit: i32)
        ensures
            bit == neighbor_bit(self.cells(), position, top_step()),
    ;

    /// 1 if the left neighbour of `position`, the cell at `(x - 1, y)`, is
    /// set, else 0.
    fn get_left_from(&self, position: Coord) -> (bit: i32)
        ensures
            bit == neighbor_bit(self.cells(), position, left_step()),
    ;

    /// 1 if the right neighbour of `position`, the cell at `(x + 1, y)`, is
    /// set, else 0.
    fn get_right_from(&self, position: Coord) -> (bit: i32)
        ensures
            bit == neighbor_bit(self.cells(), position, right_step()),
    ;

    /// 1 if the bottom neighbour of `position`, the cell at `(x, y - 1)`,
    /// is set, else 0.
    fn get_bottom_from(&self, position: Coord) -> (bit: i32)
        ensures
            bit == neighbor_bit(self.cells(), position, bottom_step()),
    ;
}

/// The cells of the columns before `column` with all their `rows` rows,
/// and of `column` itself in the rows before `row`: what `init` has filled
/// when it reaches that cell.
spec fn filled_before(column: u32, row: u32, rows: u32) -> Map<Coord, bool> {
    Map::new(
        |c: Coord| c.y < rows && (c.x < column || (c.x == column && c.y < row)),
        |c: Coord| false,
    )
}

fn flag_bit(set: bool) -> (bit: i32)
    ensures
        bit == (if set { 1int } else { 0int }),
{
    if set {
        1
    } else {
        0
    }
}

impl BitMask for NeighborGrid {
    open spec fn cells(&self) -> Map<Coord, bool> {
        self@
    }

    fn init(size: Coord) -> (grid: Self) {
        let mut grid = NeighborGrid::new();
        let mut x: u32 = 0;
        assert(grid@ =~= filled_before(0, 0, size.y));
        while x < size.x
            invariant
                x <= size.x,
                grid@ == filled_before(x, 0, size.y),
            decreases size.x - x,
        {
            let mut y: u32 = 0;
            while y < size.y
                invariant
                    x < size.x,
                    y <= size.y,
                    grid@ == filled_before(x, y, size.y),
                decreases size.y - y,
            {
                grid.insert(Coord { x, y }, false);
                y = y + 1;
                assert(grid@ =~= filled_before(x, y, size.y));
            }
            x = x + 1;
            assert(grid@ =~= filled_before(x, 0, size.y));
        }
        proof {
            assert(grid@ =~= blank_cells(size));
            lemma_blank_cells_counted(size);
        }
        grid
    }

    fn get_in_direction_from(&self, from: Coord, direction: Offset) -> (set: bool) {
        match from.offset_by(direction) {
            Some(target) => match self.get(target) {
                Some(flag) => flag,
                None => false,
            },
            None => false,
        }
    }

    fn get_bitmask(&self, position: Coord) -> (mask: Result<i32, GridError>) {
        match self.get(position) {
            Some(_) => Ok(
                self.get_top_from(position) + 2 * self.get_left_from(position) + 4
                    * self.get_right_from(position) + 8 * self.get_bottom_from(position),
            ),
            None => Err(GridError::NotFound),
        }
    }

    fn get_top_from(&self, position: Coord) -> (bit: i32) {
        flag_bit(self.get_in_direction_from(position, Offset { x: 0, y: 1 }))
    }

    fn get_left_from(&self, position: Coord) -> (bit: i32) {
        flag_bit(self.get_in_direction_from(position, Offset { x: -1, y: 0 }))
    }

    fn get_right_from(&self, position: Coord) -> (bit: i32) {
        flag_bit(self.get_in_direction_from(position, Offset { x: 1, y: 0 }))
    }

    fn get_bottom_from(&self, position: Coord) -> (bit: i32) {
        flag_bit(self.get_in_direction_from(position, Offset { x: 0, y: -1 }))
    }
}

} // verus!
