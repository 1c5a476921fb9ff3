//! The board: a grid of cells, each empty or occupied by one entity, and
//! the reverse index from entity to cell.
//!
//! The two structures are kept in lockstep: at every stable point the
//! (cell, entity) pairs read from the grid are exactly the (entity, cell)
//! pairs read from the index. `Board::wf` states that bijection, every
//! operation preserves it, and `lemma_bijection` and
//! `lemma_place_remove_round_trip` record its consequences.

use std::collections::HashMap;
use vstd::prelude::*;

use crate::grid::{grid_cells, grid_get, grid_new, grid_set};

verus! {

broadcast use vstd::std_specs::hash::group_hash_axioms;

/// One cell address: `x` is the column, `y` is the row, both counted from
/// the grid corner at the origin.
#[derive(Clone, Copy, Debug, PartialEq, Eq, Structural)]
pub struct Coord {
    pub x: u32,
    pub y: u32,
}

/// A relative move: a signed displacement, `x` along the columns and `y`
/// along the rows.
#[derive(Clone, Copy, Debug, PartialEq, Eq, Structural)]
pub struct Offset {
    pub x: i32,
    pub y: i32,
}

/// Why an operation was rejected. Every rejection is an ordinary
/// recoverable outcome: no operation panics.
#[derive(Clone, Copy, Debug, PartialEq, Eq, Structural)]
pub enum BoardError {
    /// A coordinate argument lies outside the grid extent.
    OutOfBounds,
    /// The placement target already holds an occupant.
    AlreadyOccupied,
    /// The named entity is absent from the index.
    NotTracked,
    /// The grid refused a write that the index had vouched for. A
    /// defensive signal: under `wf` it is never returned.
    StorageInconsistency,
}

/// The occupancy tracker: a fixed-size grid of optional entity handles
/// plus the index from entity handle to its current cell.
///
/// Entity handles are opaque `u64` keys; the board records where they
/// are but does not manage their lifetime.
pub struct Board {
    cells: array2d::Array2D<Option<u64>>,
    positions: HashMap<u64, Coord>,
    rows: usize,
    columns: usize,
}

/// `g` with the cell `c` overwritten by `v`.
pub open spec fn grid_write(
    g: Seq<Seq<Option<u64>>>,
    c: Coord,
    v: Option<u64>,
) -> Seq<Seq<Option<u64>>> {
    g.update(c.y as int, g[c.y as int].update(c.x as int, v))
}

/// `v` if it is non-negative, and zero otherwise.
pub open spec fn clamp_zero(v: int) -> int {
    if v < 0 {
        0
    } else {
        v
    }
}

/// Where a move from `pos` by `off` lands: each axis is clamped at zero
/// on the lower side and left alone on the upper side.
pub open spec fn target_coord(pos: Coord, off: Offset) -> Coord {
    (Coord { x: clamp_zero(pos.x + off.x) as u32, y: clamp_zero(pos.y + off.y) as u32 })
}

/// `post` is `pre` with `e` placed on the cell `dest`: the cell now holds
/// `e` and the index gained the entry `e -> dest`.
pub open spec fn place_effect(pre: Board, post: Board, dest: Coord, e: u64) -> bool {
    &&& post.grid() == grid_write(pre.grid(), dest, Some(e))
    &&& post.index() == pre.index().insert(e, dest)
    &&& post.num_rows() == pre.num_rows()
    &&& post.num_columns() == pre.num_columns()
}

/// `post` is `pre` with `e` gone: its cell cleared and its index entry
/// erased.
pub open spec fn remove_effect(pre: Board, post: Board, e: u64) -> bool {
    &&& post.grid() == grid_write(pre.grid(), pre.index()[e], None)
    &&& post.index() == pre.index().remove(e)
    &&& post.num_rows() == pre.num_rows()
    &&& post.num_columns() == pre.num_columns()
}

impl Board {
    /// The occupancy state of every cell, row by row.
    pub closed spec fn grid(self) -> Seq<Seq<Option<u64>>> {
        grid_cells(self.cells)
    }

    /// The index: which cell each tracked entity occupies.
    pub closed spec fn index(self) -> Map<u64, Coord> {
        self.positions@
    }

    /// The number of rows the board was built with.
    pub closed spec fn num_rows(self) -> int {
        self.rows as int
    }

    /// The number of columns the board was built with.
    pub closed spec fn num_columns(self) -> int {
        self.columns as int
    }

    /// `c` addresses a cell of the grid.
    pub open spec fn in_bounds(self, c: Coord) -> bool {
        c.y < self.grid().len() && c.x < self.grid()[c.y as int].len()
    }

    /// The occupant recorded at the cell `c`.
    pub open spec fn cell_at(self, c: Coord) -> Option<u64> {
        self.grid()[c.y as int][c.x as int]
    }

    /// Well-formedness: the stored dimensions describe the grid, both are
    /// positive and addressable by 32-bit coordinates, and the grid and
    /// the index record exactly the same (cell, entity) pairs — the
    /// cross-structure bijection.
    pub open spec fn wf(self) -> bool {
        &&& self.num_rows() == self.grid().len()
        &&& 1 <= self.num_rows() <= u32::MAX
        &&& 1 <= self.num_columns() <= u32::MAX
        &&& forall|r: int|
            0 <= r < self.grid().len() ==> (#[trigger] self.grid()[r]).len() == self.num_columns()
        &&& forall|e: u64|
            #[trigger] self.index().dom().contains(e) ==> self.in_bounds(self.index()[e])
                && self.cell_at(self.index()[e]) == Some(e)
        &&& forall|r: int, c: int|
            0 <= r < self.grid().len() && 0 <= c < self.grid()[r].len()
                && (#[trigger] self.grid()[r][c]) is Some ==> self.index().dom().contains(
                self.grid()[r][c]->0,
            ) && self.index()[self.grid()[r][c]->0] == (Coord { x: c as u32, y: r as u32 })
    }

    /// Creates an empty board of the given dimensions: every cell free,
    /// no entity tracked.
    ///
    /// Both dimensions must be positive and addressable by the 32-bit
    /// cell coordinates, and the cell count must stay well within a
    /// `usize`, so that the backing array can be allocated.
    pub fn new(rows: usize, columns: usize) -> (b: Board)
        requires
            1 <= rows <= u32::MAX,
            1 <= columns <= u32::MAX,
            rows * columns <= usize::MAX / 32,
        ensures
            b.wf(),
            b.num_rows() == rows,
            b.num_columns() == columns,
            b.index() == Map::<u64, Coord>::empty(),
            forall|r: int, c: int|
                0 <= r < rows && 0 <= c < columns ==> (#[trigger] b.grid()[r][c]) is None,
    {
        let b = Board { cells: grid_new(rows, columns), positions: HashMap::new(), rows, columns };
        b
    }

    /// Places `entity` on the cell `dest`.
    ///
    /// An out-of-bounds destination is rejected with `OutOfBounds`, an
    /// occupied one with `AlreadyOccupied`; either way nothing changes.
    /// Otherwise the cell now holds `entity`, the index records
    /// `entity -> dest`, and the bijection still holds. Placement is how
    /// an entity enters the tracked population, so the caller must not
    /// pass an entity that is already tracked (a tracked entity is
    /// relocated with `move_item` instead).
    pub fn set(&mut self, dest: Coord, entity: u64) -> (res: Result<(), BoardError>)
        requires
            old(self).wf(),
            !old(self).index().contains_key(entity),
        ensures
            final(self).wf(),
            !old(self).in_bounds(dest) ==> res == Err::<(), BoardError>(BoardError::OutOfBounds)
                && *final(self) == *old(self),
            old(self).in_bounds(dest) && old(self).cell_at(dest) is Some ==> res == Err::<
                (),
                BoardError,
            >(BoardError::AlreadyOccupied) && *final(self) == *old(self),
            old(self).in_bounds(dest) && old(self).cell_at(dest) is None ==> res == Ok::<
                (),
                BoardError,
            >(()) && place_effect(*old(self), *final(self), dest, entity),
    {
        match grid_get(&self.cells, dest.y as usize, dest.x as usize) {
            None => Err(BoardError::OutOfBounds),
            Some(Some(_)) => Err(BoardError::AlreadyOccupied),
            Some(None) => {
                let _in_range = grid_set(
                    &mut self.cells,
                    dest.y as usize,
                    dest.x as usize,
                    Some(entity),
                );
                self.positions.insert(entity, dest);
                Ok(())
            },
        }
    }

    /// Removes `entity` from the board, returning the cell it occupied.
    ///
    /// An entity absent from the index is rejected with `NotTracked` and
    /// nothing changes. Otherwise its cell is cleared, its index entry is
    /// erased, and the freed cell is returned. Should the grid ever
    /// refuse the write that the index vouched for — impossible while the
    /// bijection holds — the entry would still be erased and
    /// `StorageInconsistency` signalled, defensively.
    pub fn remove(&mut self, entity: u64) -> (res: Result<Coord, BoardError>)
        requires
            old(self).wf(),
        ensures
            final(self).wf(),
            !old(self).index().contains_key(entity) ==> res == Err::<Coord, BoardError>(
                BoardError::NotTracked,
            ) && *final(self) == *old(self),
            old(self).index().contains_key(entity) ==> res == Ok::<Coord, BoardError>(
                old(self).index()[entity],
            ) && remove_effect(*old(self), *final(self), entity),
    {
        let pos = match self.positions.get(&entity) {
            Some(p) => *p,
            None => {
                return Err(BoardError::NotTracked);
            },
        };
        let in_range = grid_set(&mut self.cells, pos.y as usize, pos.x as usize, None);
        if !in_range {
            self.positions.remove(&entity);
            return Err(BoardError::StorageInconsistency);
        }
        self.positions.remove(&entity);
        Ok(pos)
    }

    /// The move from `pos` by `off` stays on the board: the target of the
    /// move (lower-clamped at zero per axis) lies within the dimensions.
    pub open spec fn move_in_bounds(self, pos: Coord, off: Offset) -> bool {
        clamp_zero(pos.x + off.x) < self.num_columns() && clamp_zero(pos.y + off.y)
            < self.num_rows()
    }

    /// Moves `entity` by the relative `offset`.
    ///
    /// The target is computed from the entity's current cell, clamping
    /// each axis at zero on the lower side; a target past the upper edge
    /// is rejected with `OutOfBounds` (the deliberate policy for the
    /// unclamped upper side: block at the wall). A target held by another
    /// entity is rejected with `AlreadyOccupied`; an entity absent from
    /// the index with `NotTracked`. The move is a single transaction:
    /// on any rejection the board is exactly as it was, the entity still
    /// on its old cell, and on success the old cell is free, the target
    /// holds the entity, and the index follows. Moving onto one's own
    /// cell (after clamping) is not a collision: it succeeds and leaves
    /// the entity where it was.
    pub fn move_item(&mut self, entity: u64, offset: Offset) -> (res: Result<(), BoardError>)
        requires
            old(self).wf(),
        ensures
            final(self).wf(),
            !old(self).index().contains_key(entity) ==> res == Err::<(), BoardError>(
                BoardError::NotTracked,
            ) && *final(self) == *old(self),
            old(self).index().contains_key(entity) ==> ({
                let pos = old(self).index()[entity];
                let tgt = target_coord(pos, offset);
                &&& !old(self).move_in_bounds(pos, offset) ==> res == Err::<(), BoardError>(
                    BoardError::OutOfBounds,
                ) && *final(self) == *old(self)
                &&& old(self).move_in_bounds(pos, offset) && old(self).cell_at(tgt) is Some
                    && old(self).cell_at(tgt)->0 != entity ==> res == Err::<(), BoardError>(
                    BoardError::AlreadyOccupied,
                ) && *final(self) == *old(self)
                &&& old(self).move_in_bounds(pos, offset) && (old(self).cell_at(tgt) is None
                    || old(self).cell_at(tgt)->0 == entity) ==> res == Ok::<(), BoardError>(())
                    && final(self).grid() == grid_write(
                    grid_write(old(self).grid(), pos, None),
                    tgt,
                    Some(entity),
                ) && final(self).index() == old(self).index().insert(entity, tgt)
                    && final(self).num_rows() == old(self).num_rows()
                    && final(self).num_columns() == old(self).num_columns()
            }),
    {
        let pos = match self.positions.get(&entity) {
            Some(p) => *p,
            None => {
                return Err(BoardError::NotTracked);
            },
        };
        let tx: i64 = pos.x as i64 + offset.x as i64;
        let ty: i64 = pos.y as i64 + offset.y as i64;
        let tx: i64 = if tx < 0 {
            0
        } else {
            tx
        };
        let ty: i64 = if ty < 0 {
            0
        } else {
            ty
        };
        if !(tx < self.columns as i64 && ty < self.rows as i64) {
            return Err(BoardError::OutOfBounds);
        }
        let tgt = Coord { x: tx as u32, y: ty as u32 };
        match grid_get(&self.cells, tgt.y as usize, tgt.x as usize) {
            Some(Some(occupant)) => {
                if occupant != entity {
                    return Err(BoardError::AlreadyOccupied);
                }
            },
            _ => {},
        }
        let _freed = self.remove(entity);
        let res = self.set(tgt, entity);
        proof {
            assert(old(self).index().remove(entity).insert(entity, tgt) =~= old(
                self,
            ).index().insert(entity, tgt));
        }
        res
    }

    /// Where `entity` currently is: its cell when tracked, `None` when
    /// not. The read the presentation layer makes once per frame.
    pub fn lookup(&self, entity: u64) -> (res: Option<Coord>)
        ensures
            res == (if self.index().contains_key(entity) {
                Some(self.index()[entity])
            } else {
                None::<Coord>
            }),
    {
        match self.positions.get(&entity) {
            Some(p) => Some(*p),
            None => None,
        }
    }

    /// The occupant recorded at the cell `c`, or `OutOfBounds` when `c`
    /// does not address a cell. A pure read.
    pub fn get(&self, c: Coord) -> (res: Result<Option<u64>, BoardError>)
        ensures
            self.in_bounds(c) ==> res == Ok::<Option<u64>, BoardError>(self.cell_at(c)),
            !self.in_bounds(c) ==> res == Err::<Option<u64>, BoardError>(BoardError::OutOfBounds),
    {
        match grid_get(&self.cells, c.y as usize, c.x as usize) {
            Some(v) => Ok(v),
            None => Err(BoardError::OutOfBounds),
        }
    }
}

/// The cross-structure bijection, read off `wf` one cell at a time: a
/// cell holds an entity exactly when the index records that entity at
/// that cell. In particular no cell holds two entities and no entity
/// sits on two cells.
pub proof fn lemma_bijection(b: Board, c: Coord, e: u64)
    requires
        b.wf(),
        b.in_bounds(c),
    ensures
        b.cell_at(c) == Some(e) <==> b.index().contains_key(e) && b.index()[e] == c,
{
    if b.cell_at(c) == Some(e) {
        assert(b.grid()[c.y as int][c.x as int] is Some);
        assert(b.index()[e] == (Coord { x: c.x as int as u32, y: c.y as int as u32 }));
    }
}

/// Round trip: placing an entity on a free cell and removing it straight
/// away hands the placement cell back and restores the grid and the
/// index exactly as they were.
pub proof fn lemma_place_remove_round_trip(pre: Board, mid: Board, post: Board, c: Coord, e: u64)
    requires
        pre.wf(),
        !pre.index().contains_key(e),
        pre.in_bounds(c),
        pre.cell_at(c) is None,
        place_effect(pre, mid, c, e),
        remove_effect(mid, post, e),
    ensures
        mid.index()[e] == c,
        post.index() == pre.index(),
        post.grid() == pre.grid(),
{
    assert(post.index() =~= pre.index());
    let y = c.y as int;
    let x = c.x as int;
    assert(post.grid()[y] =~= pre.grid()[y]);
    assert(post.grid() =~~= pre.grid());
}

} // verus!
