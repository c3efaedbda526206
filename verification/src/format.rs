//! How a board is laid out in the observation: the size of the grid, the
//! function that gives each place on the board its cell, and whether hidden
//! detail is included.

use crate::state::{Coord, GameState, Hex};
use vstd::prelude::*;

verus! {

/// The encoding of one environment. It is fixed when the environment is made.
pub struct EncodingFormat<F> {
    /// Cells along the first axis of the board array.
    pub width: usize,
    /// Cells along the second axis of the board array.
    pub height: usize,
    /// The cell of each place on the board.
    pub map: F,
    /// Whether observations carry the hidden array.
    pub include_hidden: bool,
}

impl<F: Fn(Coord) -> (usize, usize)> EncodingFormat<F> {
    /// The mapping can be called on `c`, and it has one answer there.
    pub open spec fn defined_at(&self, c: Coord) -> bool {
        &&& call_requires(self.map, (c,))
        &&& forall|a: (usize, usize), b: (usize, usize)|
            call_ensures(self.map, (c,), a) && call_ensures(self.map, (c,), b) ==> a == b
    }

    /// The cell that the mapping gives `c`.
    pub open spec fn cell_of(&self, c: Coord) -> (int, int) {
        let cell = choose|cell: (usize, usize)| call_ensures(self.map, (c,), cell);
        (cell.0 as int, cell.1 as int)
    }

    /// The mapping as a function on coordinates.
    pub open spec fn cell_map(&self) -> spec_fn(Coord) -> (int, int) {
        |c: Coord| self.cell_of(c)
    }

    /// The cell of `c` lies inside the grid.
    pub open spec fn in_grid(&self, c: Coord) -> bool {
        0 <= self.cell_of(c).0 < self.width && 0 <= self.cell_of(c).1 < self.height
    }

    /// The mapping is defined wherever the board encoder calls it: on every
    /// land hex, on every path with a road, and on every intersection.
    pub open spec fn callable_on(&self, state: &GameState) -> bool {
        &&& forall|i: int|
            0 <= i < state.hexes@.len() && (#[trigger] state.hexes@[i]).hex is Land
                ==> self.defined_at(state.hexes@[i].coord)
        &&& forall|i: int|
            0 <= i < state.paths@.len() && (#[trigger] state.paths@[i]).road is Some
                ==> self.defined_at(state.paths@[i].coord)
        &&& forall|i: int|
            0 <= i < state.intersections@.len() ==> self.defined_at(
                (#[trigger] state.intersections@[i]).coord,
            )
    }

    /// Everything that the board encoder writes lies inside the grid: every
    /// land hex, every path with a road, and every intersection with a harbor
    /// or a building.
    pub open spec fn within_grid(&self, state: &GameState) -> bool {
        &&& forall|i: int|
            0 <= i < state.hexes@.len() && (#[trigger] state.hexes@[i]).hex is Land
                ==> self.in_grid(state.hexes@[i].coord)
        &&& forall|i: int|
            0 <= i < state.paths@.len() && (#[trigger] state.paths@[i]).road is Some
                ==> self.in_grid(state.paths@[i].coord)
        &&& forall|i: int|
            0 <= i < state.intersections@.len() && (!((
            #[trigger] state.intersections@[i]).harbor is Absent)
                || state.intersections@[i].building is Some) ==> self.in_grid(
                state.intersections@[i].coord,
            )
    }

    /// The cell of `c`.
    pub fn locate(&self, c: Coord) -> (cell: (usize, usize))
        requires
            self.defined_at(c),
        ensures
            (cell.0 as int, cell.1 as int) == self.cell_of(c),
            call_ensures(self.map, (c,), cell),
    {
        (self.map)(c)
    }

    /// Whether `within_grid` holds of `state`.
    pub fn fits(&self, state: &GameState) -> (ok: bool)
        requires
            self.callable_on(state),
        ensures
            ok == self.within_grid(state),
    {
        let mut i: usize = 0;
        while i < state.hexes.len()
            invariant
                i <= state.hexes@.len(),
                self.callable_on(state),
                forall|k: int|
                    0 <= k < i && (#[trigger] state.hexes@[k]).hex is Land ==> self.in_grid(
                        state.hexes@[k].coord,
                    ),
            decreases state.hexes@.len() - i,
        {
            let site = state.hexes[i];
            match site.hex {
                Hex::Land(_) => {
                    let cell = self.locate(site.coord);
                    if cell.0 >= self.width || cell.1 >= self.height {
                        return false;
                    }
                },
                Hex::Water => {},
            }
            i += 1;
        }
        let mut j: usize = 0;
        while j < state.paths.len()
            invariant
                j <= state.paths@.len(),
                self.callable_on(state),
                forall|k: int|
                    0 <= k < j && (#[trigger] state.paths@[k]).road is Some ==> self.in_grid(
                        state.paths@[k].coord,
                    ),
            decreases state.paths@.len() - j,
        {
            let site = state.paths[j];
            if site.road.is_some() {
                let cell = self.locate(site.coord);
                if cell.0 >= self.width || cell.1 >= self.height {
                    return false;
                }
            }
            j += 1;
        }
        let mut k: usize = 0;
        while k < state.intersections.len()
            invariant
                k <= state.intersections@.len(),
                self.callable_on(state),
                forall|m: int|
                    0 <= m < k && (!((#[trigger] state.intersections@[m]).harbor is Absent)
                        || state.intersections@[m].building is Some) ==> self.in_grid(
                        state.intersections@[m].coord,
                    ),
            decreases state.intersections@.len() - k,
        {
            let site = state.intersections[k];
            let marked = match site.harbor {
                crate::state::Harbor::Absent => site.building.is_some(),
                _ => true,
            };
            if marked {
                let cell = self.locate(site.coord);
                if cell.0 >= self.width || cell.1 >= self.height {
                    return false;
                }
            }
            k += 1;
        }
        true
    }
}

} // verus!
