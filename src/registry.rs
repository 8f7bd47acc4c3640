//! The boards of all games, one per game identifier.

use vstd::prelude::*;
use crate::address::Address;
use crate::board::{create_board, is_fresh_board, Board, BoardVisibility};
use crate::error::SquaresError;

verus! {

/// The boards opened so far, at most one per game identifier.
pub struct BoardRegistry {
    boards: Vec<Board>,
}

impl BoardRegistry {
    /// The boards in the order they were opened.
    pub closed spec fn view(&self) -> Seq<Board> {
        self.boards@
    }

    /// Every board meets its invariant and no two share a game identifier.
    pub open spec fn wf(&self) -> bool {
        &&& forall|i: int| 0 <= i < self@.len() ==> (#[trigger] self@[i]).wf()
        &&& forall|i: int, j: int|
            0 <= i < j < self@.len() ==> (#[trigger] self@[i]).game_id != (#[trigger] self@[j]).game_id
    }

    /// Whether a board for `game_id` was opened.
    pub open spec fn has_game(&self, game_id: u64) -> bool {
        exists|i: int| 0 <= i < self@.len() && (#[trigger] self@[i]).game_id == game_id
    }

    /// A registry without boards.
    pub fn new() -> (r: BoardRegistry)
        ensures
            r.wf(),
            r@.len() == 0,
    {
        BoardRegistry { boards: Vec::new() }
    }

    /// The number of boards.
    pub fn len(&self) -> (r: usize)
        ensures
            r == self@.len(),
    {
        self.boards.len()
    }

    /// Where the board of `game_id` stands, if there is one.
    pub fn find(&self, game_id: u64) -> (r: Option<usize>)
        ensures
            match r {
                Some(i) => i < self@.len() && self@[i as int].game_id == game_id,
                None => !self.has_game(game_id),
            },
    {
        let mut i: usize = 0;
        while i < self.boards.len()
            invariant
                0 <= i <= self@.len(),
                forall|j: int| 0 <= j < i ==> (#[trigger] self@[j]).game_id != game_id,
            decreases self@.len() - i,
        {
            if self.boards[i].game_id == game_id {
                return Some(i);
            }
            i += 1;
        }
        None
    }

    /// The board at `index`.
    pub fn get(&self, index: usize) -> (r: &Board)
        requires
            index < self@.len(),
        ensures
            *r == self@[index as int],
    {
        &self.boards[index]
    }

    /// Opens the board of `game_id`; fails with `BoardExists` where one is open.
    pub fn create_board(
        &mut self,
        game_id: u64,
        authority: Address,
        price_per_square: u64,
        visibility: BoardVisibility,
        now: i64,
    ) -> (r: Result<usize, SquaresError>)
        requires
            old(self).wf(),
        ensures
            final(self).wf(),
            old(self).has_game(game_id) ==> r == Err::<usize, SquaresError>(SquaresError::BoardExists)
                && final(self)@ == old(self)@,
            !old(self).has_game(game_id) ==> {
                &&& r == Ok::<usize, SquaresError>(old(self)@.len() as usize)
                &&& final(self)@.len() == old(self)@.len() + 1
                &&& final(self)@.drop_last() == old(self)@
                &&& is_fresh_board(final(self)@.last(), game_id, authority, price_per_square, visibility, now)
            },
    {
        if self.find(game_id).is_some() {
            return Err(SquaresError::BoardExists);
        }
        let b = create_board(game_id, authority, price_per_square, visibility, now);
        let index = self.boards.len();
        self.boards.push(b);
        assert(self@.drop_last() =~= old(self)@);
        Ok(index)
    }

    /// Puts back the board at `index` after an operation on it; the game
    /// identifier stays.
    pub fn replace(&mut self, index: usize, board: Board)
        requires
            old(self).wf(),
            index < old(self)@.len(),
            board.wf(),
            board.game_id == old(self)@[index as int].game_id,
        ensures
            final(self).wf(),
            final(self)@ == old(self)@.update(index as int, board),
    {
        self.boards.set(index, board);
    }
}

} // verus!
