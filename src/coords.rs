use vstd::prelude::*;
use crate::square::{valid_file, valid_rank};

verus! {

/// Flat boards list rank 8 first and rank 1 last, files 'a' to 'h' within
/// each rank. These give the rank and file held at a flat index.
pub open spec fn rank_at(i: int) -> int {
    8 - i / 8
}

pub open spec fn file_at(i: int) -> char {
    ('a' as int + i % 8) as char
}

/// The flat index of a square: eight per rank, rank 8 first.
pub open spec fn board_index(rank: int, file: char) -> int {
    (8 - rank) * 8 + (file as int - 'a' as int)
}

/// Why a coordinate was refused.
#[derive(Debug, Clone, Copy, PartialEq, Eq, Structural)]
pub enum CoordError {
    /// The rank lies outside 1..=8 or the file outside 'a'..='h'.
    OutOfRange,
}

/// The flat index of the square at `rank` and `file`, or `OutOfRange` where
/// either lies off the board.
pub fn rank_and_file_to_index(rank: u8, file: char) -> (r: Result<usize, CoordError>)
    ensures
        valid_rank(rank as int) && valid_file(file) ==> r == Ok::<usize, CoordError>(
            board_index(rank as int, file) as usize,
        ),
        !(valid_rank(rank as int) && valid_file(file)) ==> r == Err::<usize, CoordError>(
            CoordError::OutOfRange,
        ),
{
    if rank < 1 || rank > 8 || file < 'a' || file > 'h' {
        return Err(CoordError::OutOfRange);
    }
    let row: u8 = 8 - rank;
    let col: u8 = (file as u32 - 'a' as u32) as u8;
    Ok((row * 8 + col) as usize)
}

/// Every square of the board has a flat index in 0..64, and the index gives
/// the square back; every flat index is that of a square.
pub proof fn lemma_index_bijection()
    ensures
        forall|rank: int, file: char|
            valid_rank(rank) && valid_file(file) ==> {
                let i = #[trigger] board_index(rank, file);
                &&& 0 <= i < 64
                &&& rank_at(i) == rank
                &&& file_at(i) == file
            },
        forall|i: int|
            0 <= i < 64 ==> {
                &&& valid_rank(#[trigger] rank_at(i))
                &&& valid_file(file_at(i))
                &&& board_index(rank_at(i), file_at(i)) == i
            },
{
    assert forall|rank: int, file: char| valid_rank(rank) && valid_file(file) implies {
        let i = #[trigger] board_index(rank, file);
        &&& 0 <= i < 64
        &&& rank_at(i) == rank
        &&& file_at(i) == file
    } by {
        let row = 8 - rank;
        let col = file as int - 'a' as int;
        assert((row * 8 + col) / 8 == row && (row * 8 + col) % 8 == col) by (nonlinear_arith)
            requires
                0 <= row < 8,
                0 <= col < 8,
        ;
    }
    assert forall|i: int| 0 <= i < 64 implies {
        &&& valid_rank(#[trigger] rank_at(i))
        &&& valid_file(file_at(i))
        &&& board_index(rank_at(i), file_at(i)) == i
    } by {
        assert(i == (i / 8) * 8 + i % 8 && 0 <= i / 8 < 8 && 0 <= i % 8 < 8) by (nonlinear_arith)
            requires
                0 <= i < 64,
        ;
    }
}

} // verus!
