//! Properties of the queries that hold for every grid.

use crate::bitmask::{
    blank_cells, bottom_step, left_step, mask_result, mask_value, neighbor_bit, neighbor_set,
    right_step, top_step, BitMask, GridError,
};
use crate::coord::{Coord, Offset};
use vstd::prelude::*;
use vstd::set_lib::lemma_set_disjoint_lens;

verus! {

/// The cells of column `x` in the rows below `rows`.
spec fn column(x: u32, rows: nat) -> Set<Coord> {
    Set::new(|c: Coord| c.x == x && c.y < rows)
}

/// The cells in the columns below `columns` and the rows below `rows`.
spec fn rectangle(columns: nat, rows: nat) -> Set<Coord> {
    Set::new(|c: Coord| c.x < columns && c.y < rows)
}

proof fn lemma_column_counted(x: u32, rows: nat)
    requires
        rows <= 0x1_0000_0000,
    ensures
        column(x, rows).finite(),
        column(x, rows).len() == rows,
    decreases rows,
{
    if rows == 0 {
        assert(column(x, rows) =~= Set::<Coord>::empty());
    } else {
        let below = (rows - 1) as nat;
        lemma_column_counted(x, below);
        let last = Coord { x, y: below as u32 };
        assert(column(x, rows) =~= column(x, below).insert(last));
    }
}

proof fn lemma_rectangle_counted(columns: nat, rows: nat)
    requires
        columns <= 0x1_0000_0000,
        rows <= 0x1_0000_0000,
    ensures
        rectangle(columns, rows).finite(),
        rectangle(columns, rows).len() == columns * rows,
    decreases columns,
{
    if columns == 0 {
        assert(rectangle(columns, rows) =~= Set::<Coord>::empty());
    } else {
        let before = (columns - 1) as nat;
        let inner = rectangle(before, rows);
        let edge = column(before as u32, rows);
        lemma_rectangle_counted(before, rows);
        lemma_column_counted(before as u32, rows);
        assert(inner.disjoint(edge));
        lemma_set_disjoint_lens(inner, edge);
        assert(rectangle(columns, rows) =~= inner + edge);
        assert(before * rows + rows == columns * rows) by (nonlinear_arith)
            requires
                before + 1 == columns,
        ;
    }
}

/// A freshly initialised grid holds exactly `size.x * size.y` cells, one
/// for each coordinate of its rectangle, and every one of them is unset.
pub proof fn lemma_blank_cells_counted(size: Coord)
    ensures
        blank_cells(size).dom().finite(),
        blank_cells(size).dom().len() == size.x * size.y,
        forall|c: Coord|
            blank_cells(size).contains_key(c) <==> c.x < size.x && c.y < size.y,
        forall|c: Coord| blank_cells(size).contains_key(c) ==> !blank_cells(size)[c],
{
    lemma_rectangle_counted(size.x as nat, size.y as nat);
    assert(blank_cells(size).dom() =~= rectangle(size.x as nat, size.y as nat));
}

/// Whether the cells of a grid are exactly the coordinates of the rectangle
/// `[0, size.x) x [0, size.y)`.
pub open spec fn populates(cells: Map<Coord, bool>, size: Coord) -> bool {
    forall|c: Coord| cells.contains_key(c) <==> c.x < size.x && c.y < size.y
}

/// What `init` returns populates its rectangle, and stays so when flags of
/// cells inside the rectangle are overwritten.
pub proof fn lemma_populated_by_init(size: Coord, position: Coord, value: bool)
    requires
        position.x < size.x,
        position.y < size.y,
    ensures
        populates(blank_cells(size), size),
        forall|cells: Map<Coord, bool>|
            populates(cells, size) ==> populates(#[trigger] cells.insert(position, value), size),
{
}

/// A neighbour outside the populated rectangle is unset, whatever the
/// origin and the step are: the query answers `false`, and 0 as a bit.
pub proof fn lemma_outside_rectangle_unset(
    cells: Map<Coord, bool>,
    size: Coord,
    origin: Coord,
    step: Offset,
)
    requires
        populates(cells, size),
        !(0 <= origin.x + step.x < size.x && 0 <= origin.y + step.y < size.y),
    ensures
        !neighbor_set(cells, origin, step),
        neighbor_bit(cells, origin, step) == 0,
{
}

/// A query's answer is determined by the grid's cells and the query's
/// arguments: grids that hold the same cells give the same answers, and so
/// does one grid that is asked again before any cell changes.
pub proof fn lemma_same_cells_same_answers<A: BitMask, B: BitMask>(
    first: &A,
    second: &B,
    origin: Coord,
    step: Offset,
)
    requires
        first.cells() =~= second.cells(),
    ensures
        neighbor_set(first.cells(), origin, step) == neighbor_set(second.cells(), origin, step),
        neighbor_bit(first.cells(), origin, step) == neighbor_bit(second.cells(), origin, step),
        mask_result(first.cells(), origin) == mask_result(second.cells(), origin),
{
}

/// A mask lies between 0 and 15, and its four lowest bits are the flags of
/// the top, left, right and bottom neighbour, in that order.
pub proof fn lemma_mask_in_range(cells: Map<Coord, bool>, position: Coord)
    ensures
        0 <= mask_value(cells, position) <= 15,
        mask_value(cells, position) % 2 == neighbor_bit(cells, position, top_step()),
        (mask_value(cells, position) / 2) % 2 == neighbor_bit(cells, position, left_step()),
        (mask_value(cells, position) / 4) % 2 == neighbor_bit(cells, position, right_step()),
        (mask_value(cells, position) / 8) % 2 == neighbor_bit(cells, position, bottom_step()),
        match mask_result(cells, position) {
            Ok(mask) => 0 <= mask <= 15 && mask == mask_value(cells, position),
            Err(e) => e == GridError::NotFound,
        },
{
}

/// A position that is no cell of the grid has no mask, and it still has
/// none after a flag was stored at any other position.
pub proof fn lemma_never_inserted_not_found(
    cells: Map<Coord, bool>,
    position: Coord,
    other: Coord,
    value: bool,
)
    requires
        !cells.contains_key(position),
        other != position,
    ensures
        mask_result(cells, position) == Err::<i32, GridError>(GridError::NotFound),
        mask_result(cells.insert(other, value), position) == Err::<i32, GridError>(
            GridError::NotFound,
        ),
{
}

/// Only the flags of the four orthogonal neighbours enter a mask: the
/// mask of a cell does not change when a flag is stored anywhere else,
/// the cell itself included.
pub proof fn lemma_mask_reads_neighbors_only(
    cells: Map<Coord, bool>,
    position: Coord,
    other: Coord,
    value: bool,
)
    requires
        position.shifted(top_step()) != Some(other),
        position.shifted(left_step()) != Some(other),
        position.shifted(right_step()) != Some(other),
        position.shifted(bottom_step()) != Some(other),
    ensures
        mask_value(cells.insert(other, value), position) == mask_value(cells, position),
{
}

} // verus!
