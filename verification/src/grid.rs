//! The sparse grid of flags that neighbour queries read.

use crate::coord::Coord;
use std::collections::HashMap;
use vstd::prelude::*;
use vstd::relations::injective_on;
use vstd::set_lib::lemma_map_size;

verus! {

broadcast use vstd::std_specs::hash::group_hash_axioms;

/// A mapping from cell coordinates to flags.
///
/// The abstract value of a grid is a `Map<Coord, bool>`: a coordinate that is
/// a key of the map is a cell of the grid, and every other coordinate is
/// absent. Cells are stored in a hash map under a 64-bit key that holds the
/// column in its upper half and the row in its lower half.
#[derive(Debug, PartialEq, Eq)]
pub struct NeighborGrid {
    cells: HashMap<u64, bool>,
}

/// The storage key of a cell.
spec fn key_of(c: Coord) -> u64 {
    (c.x * 0x1_0000_0000 + c.y) as u64
}

/// The cell that is stored under a key.
spec fn coord_of(k: u64) -> Coord {
    Coord { x: (k / 0x1_0000_0000) as u32, y: (k % 0x1_0000_0000) as u32 }
}

/// `key_of` and `coord_of` are inverse to each other, so distinct cells
/// never share a key and every key belongs to a cell.
proof fn lemma_key_roundtrip()
    ensures
        forall|c: Coord| coord_of(#[trigger] key_of(c)) == c,
        forall|k: u64| key_of(#[trigger] coord_of(k)) == k,
{
}

fn make_key(c: Coord) -> (k: u64)
    ensures
        k == key_of(c),
{
    c.x as u64 * 0x1_0000_0000 + c.y as u64
}

impl View for NeighborGrid {
    type V = Map<Coord, bool>;

    closed spec fn view(&self) -> Map<Coord, bool> {
        Map::new(
            |c: Coord| self.cells@.contains_key(key_of(c)),
            |c: Coord| self.cells@[key_of(c)],
        )
    }
}

impl NeighborGrid {
    /// A grid is finite, and it holds as many cells as its store has keys.
    proof fn lemma_cells_counted(&self)
        ensures
            self@.dom().finite(),
            self@.dom().len() == self.cells@.dom().len(),
    {
        lemma_key_roundtrip();
        let f = |k: u64| coord_of(k);
        assert(injective_on(f, self.cells@.dom())) by {
            assert forall|a: u64, b: u64| #[trigger] f(a) == #[trigger] f(b) implies a == b by {
                assert(key_of(coord_of(a)) == a);
                assert(key_of(coord_of(b)) == b);
            }
        }
        assert(self.cells@.dom().map(f) =~= self@.dom()) by {
            assert forall|c: Coord| self@.dom().contains(c) implies self.cells@.dom().map(
                f,
            ).contains(c) by {
                assert(self.cells@.dom().contains(key_of(c)) && c == f(key_of(c)));
            }
        }
        lemma_map_size(self.cells@.dom(), self@.dom(), f);
    }

    /// A grid without cells.
    pub fn new() -> (grid: NeighborGrid)
        ensures
            grid@ == Map::<Coord, bool>::empty(),
    {
        let grid = NeighborGrid { cells: HashMap::new() };
        assert(grid@ =~= Map::<Coord, bool>::empty());
        grid
    }

    /// Stores `value` at `position`, adding the cell if it was absent, and
    /// returns the flag that the cell held before.
    pub fn insert(&mut self, position: Coord, value: bool) -> (previous: Option<bool>)
        ensures
            final(self)@ == old(self)@.insert(position, value),
            previous == (if old(self)@.contains_key(position) {
                Some(old(self)@[position])
            } else {
                None
            }),
    {
        let k = make_key(position);
        let previous = self.cells.insert(k, value);
        proof {
            lemma_key_roundtrip();
            assert forall|c: Coord| c != position implies key_of(c) != k by {
                assert(coord_of(key_of(c)) == c);
            }
            assert(self@ =~= old(self)@.insert(position, value));
        }
        previous
    }

    /// The flag stored at `position`, or `None` where the grid has no such
    /// cell.
    pub fn get(&self, position: Coord) -> (value: Option<bool>)
        ensures
            value == (if self@.contains_key(position) {
                Some(self@[position])
            } else {
                None
            }),
    {
        let k = make_key(position);
        match self.cells.get(&k) {
            Some(flag) => Some(*flag),
            None => None,
        }
    }

    /// The number of cells.
    pub fn len(&self) -> (n: usize)
        ensures
            self@.dom().finite(),
            n == self@.dom().len(),
    {
        proof {
            self.lemma_cells_counted();
        }
        self.cells.len()
    }
}

} // verus!
