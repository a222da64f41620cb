//! The one-slot undo buffer: exactly one prior live-grid snapshot with its
//! move count and player position, swappable with the current play state.
//! Repeated undo commands therefore toggle between two states; this is a
//! deliberate single-level history, not an undo stack.

use vstd::prelude::*;

use crate::level::Level;

verus! {

/// Retains at most one pre-move snapshot of a play session.
#[derive(Debug)]
pub struct UndoBuffer {
    grid: Option<Level>,
    moves: u32,
    player_pos: (usize, usize),
}

impl UndoBuffer {
    /// The retained grid snapshot, if a move was recorded.
    pub closed spec fn spec_grid(self) -> Option<Level> {
        self.grid
    }

    /// The move count retained with the snapshot.
    pub closed spec fn spec_moves(self) -> u32 {
        self.moves
    }

    /// The player position retained with the snapshot.
    pub closed spec fn spec_player_pos(self) -> (usize, usize) {
        self.player_pos
    }

    /// An empty buffer: no snapshot to undo to.
    pub fn new() -> (buffer: UndoBuffer)
        ensures
            buffer.spec_grid() is None,
            buffer.spec_moves() == 0,
            buffer.spec_player_pos() == (0usize, 0usize),
    {
        UndoBuffer { grid: None, moves: 0, player_pos: (0, 0) }
    }

    /// Drops any retained snapshot, as a new level start must.
    pub fn clear(&mut self)
        ensures
            final(self).spec_grid() is None,
            final(self).spec_moves() == 0,
            final(self).spec_player_pos() == (0usize, 0usize),
    {
        self.grid = None;
        self.moves = 0;
        self.player_pos = (0, 0);
    }

    /// The buffer a `record` call leaves behind.
    pub closed spec fn spec_after_record(
        grid: Level,
        moves: u32,
        player_pos: (usize, usize),
    ) -> UndoBuffer {
        UndoBuffer { grid: Some(grid), moves, player_pos }
    }

    /// The buffer and play state an `undo` call leaves behind, given the
    /// current play state: buffer contents and play state exchange places
    /// when a snapshot is held, and nothing moves otherwise.
    pub closed spec fn spec_after_undo(
        self,
        live: Level,
        moves: u32,
        player_pos: (usize, usize),
    ) -> (UndoBuffer, Level, u32, (usize, usize)) {
        match self.grid {
            Some(snapshot) => (
                UndoBuffer { grid: Some(live), moves, player_pos },
                snapshot,
                self.moves,
                self.player_pos,
            ),
            None => (self, live, moves, player_pos),
        }
    }

    /// Stores the state that held immediately before a move that is about to
    /// change the grid; a rejected move must not be recorded over it.
    pub fn record(&mut self, grid: Level, moves: u32, player_pos: (usize, usize))
        ensures
            *final(self) == UndoBuffer::spec_after_record(grid, moves, player_pos),
            final(self).spec_grid() == Some(grid),
            final(self).spec_moves() == moves,
            final(self).spec_player_pos() == player_pos,
    {
        self.grid = Some(grid);
        self.moves = moves;
        self.player_pos = player_pos;
    }

    /// Atomically swaps the current live grid, move count and player position
    /// with the buffer's contents. Returns false, changing nothing, when no
    /// snapshot was recorded.
    pub fn undo(
        &mut self,
        live: &mut Level,
        moves: &mut u32,
        player_pos: &mut (usize, usize),
    ) -> (did: bool)
        ensures
            did == (old(self).spec_grid() is Some),
            (*final(self), *final(live), *final(moves), *final(player_pos))
                == old(self).spec_after_undo(*old(live), *old(moves), *old(player_pos)),
            did ==> {
                &&& *final(live) == old(self).spec_grid().unwrap()
                &&& final(self).spec_grid() == Some(*old(live))
                &&& *final(moves) == old(self).spec_moves()
                &&& final(self).spec_moves() == *old(moves)
                &&& *final(player_pos) == old(self).spec_player_pos()
                &&& final(self).spec_player_pos() == *old(player_pos)
            },
            !did ==> {
                &&& *final(self) == *old(self)
                &&& *final(live) == *old(live)
                &&& *final(moves) == *old(moves)
                &&& *final(player_pos) == *old(player_pos)
            },
    {
        if self.grid.is_some() {
            let mut snapshot = self.grid.take().unwrap();
            core::mem::swap(&mut snapshot, live);
            self.grid = Some(snapshot);
            core::mem::swap(&mut self.moves, moves);
            core::mem::swap(&mut self.player_pos, player_pos);
            true
        } else {
            false
        }
    }
}

/// Undo restores the recorded state exactly. Whatever a move did to the live
/// grid, move count and player position, a `record` of the pre-move state
/// followed by an `undo` hands back that exact grid (every tile equal),
/// move count and player position, while the buffer retains the post-move
/// state — so a second undo redoes the move.
pub proof fn lemma_record_then_undo_restores(
    before_grid: Level,
    before_moves: u32,
    before_pos: (usize, usize),
    after_grid: Level,
    after_moves: u32,
    after_pos: (usize, usize),
)
    ensures
        ({
            let recorded = UndoBuffer::spec_after_record(before_grid, before_moves, before_pos);
            let (buffer, grid, moves, pos) = recorded.spec_after_undo(after_grid, after_moves,
                after_pos);
            &&& grid == before_grid
            &&& grid@ == before_grid@
            &&& moves == before_moves
            &&& pos == before_pos
            &&& buffer.spec_grid() == Some(after_grid)
            &&& buffer.spec_moves() == after_moves
            &&& buffer.spec_player_pos() == after_pos
        }),
{
}

} // verus!
