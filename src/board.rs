use vstd::prelude::*;
use crate::coords::{board_index, file_at, lemma_index_bijection, rank_and_file_to_index, rank_at};
use crate::piece::{starting_occupant, starting_occupant_at, Occupant, PieceKind, Side};
use crate::square::{valid_file, valid_rank, Square, SquareColor};

verus! {

/// The 64 squares of a board in flat order: rank 8 first, files 'a' to 'h'
/// within each rank, each square named and coloured.
pub open spec fn is_board_layout(s: Seq<Square>) -> bool {
    &&& s.len() == 64
    &&& forall|i: int|
        0 <= i < 64 ==> {
            &&& (#[trigger] s[i]).well_formed()
            &&& s[i].spec_rank() == rank_at(i)
            &&& s[i].spec_file() == file_at(i)
        }
}

/// The starting position in flat order: entry `i` is what stands on the
/// square at `rank_at(i)` and `file_at(i)`.
pub open spec fn initial_table() -> Seq<Occupant> {
    Seq::new(64, |i: int| starting_occupant(rank_at(i), file_at(i)))
}

/// A standard board in its starting position: each square paired with what
/// stands on it, in flat order.
pub struct ChessBoard {
    cells: Vec<(Square, Occupant)>,
}

impl ChessBoard {
    pub closed spec fn spec_cells(&self) -> Seq<(Square, Occupant)> {
        self.cells@
    }

    /// 64 cells whose squares form the layout and whose occupants are those
    /// of the starting position.
    pub open spec fn well_formed(&self) -> bool {
        &&& self.spec_cells().len() == 64
        &&& is_board_layout(self.spec_cells().map_values(|c: (Square, Occupant)| c.0))
        &&& forall|i: int|
            0 <= i < 64 ==> (#[trigger] self.spec_cells()[i]).1 == starting_occupant(
                rank_at(i),
                file_at(i),
            )
    }

    /// The 64 squares of the board, rank 8 down to rank 1 and file 'a' to
    /// 'h' within each rank.
    pub fn get_base_board() -> (r: Vec<Square>)
        ensures
            is_board_layout(r@),
    {
        let mut squares: Vec<Square> = Vec::new();
        let mut i: u8 = 0;
        while i < 64
            invariant
                i <= 64,
                squares@.len() == i,
                forall|k: int|
                    0 <= k < i ==> {
                        &&& (#[trigger] squares@[k]).well_formed()
                        &&& squares@[k].spec_rank() == rank_at(k)
                        &&& squares@[k].spec_file() == file_at(k)
                    },
            decreases 64 - i,
        {
            let rank: u8 = 8 - i / 8;
            let file: char = ('a' as u8 + i % 8) as char;
            squares.push(Square::new(rank, file));
            i = i + 1;
        }
        squares
    }

    /// What stands on each square at the start of a game, in the same flat
    /// order as the squares.
    pub fn get_initial_position() -> (r: Vec<Occupant>)
        ensures
            r@ == initial_table(),
    {
        let mut table: Vec<Occupant> = Vec::new();
        let mut i: u8 = 0;
        while i < 64
            invariant
                i <= 64,
                table@.len() == i,
                forall|k: int| 0 <= k < i ==> #[trigger] table@[k] == initial_table()[k],
            decreases 64 - i,
        {
            let rank: u8 = 8 - i / 8;
            let file: char = ('a' as u8 + i % 8) as char;
            table.push(starting_occupant_at(rank, file));
            i = i + 1;
        }
        assert(table@ =~= initial_table());
        table
    }

    /// The board in its starting position: each square of the layout paired
    /// with the entry of the starting table at that square's flat index.
    pub fn new() -> (r: ChessBoard)
        ensures
            r.well_formed(),
    {
        let squares = ChessBoard::get_base_board();
        let states = ChessBoard::get_initial_position();
        proof {
            lemma_lookup_matches_start(squares@, states@);
        }
        let mut cells: Vec<(Square, Occupant)> = Vec::new();
        let mut i: usize = 0;
        while i < squares.len()
            invariant
                is_board_layout(squares@),
                states@ == initial_table(),
                i <= 64,
                cells@.len() == i,
                forall|k: int|
                    0 <= k < i ==> {
                        &&& (#[trigger] cells@[k]).0 == squares@[k]
                        &&& cells@[k].1 == starting_occupant(rank_at(k), file_at(k))
                    },
            decreases 64 - i,
        {
            let square = &squares[i];
            let index = rank_and_file_to_index(square.rank(), square.file()).unwrap();
            cells.push((square.clone(), states[index]));
            i = i + 1;
        }
        let r = ChessBoard { cells };
        assert(r.spec_cells().map_values(|c: (Square, Occupant)| c.0) =~= squares@);
        r
    }

    /// The square of cell `i`.
    pub fn square(&self, i: usize) -> (r: &Square)
        requires
            self.well_formed(),
            i < 64,
        ensures
            *r == self.spec_cells()[i as int].0,
    {
        &self.cells[i].0
    }

    /// What stands on the square of cell `i`.
    pub fn occupant(&self, i: usize) -> (r: Occupant)
        requires
            self.well_formed(),
            i < 64,
        ensures
            r == self.spec_cells()[i as int].1,
    {
        self.cells[i].1
    }
}

/// Looking up each square of the layout in the starting table, at its flat
/// index, gives what stands on that square in the starting position.
pub proof fn lemma_lookup_matches_start(squares: Seq<Square>, table: Seq<Occupant>)
    requires
        is_board_layout(squares),
        table == initial_table(),
    ensures
        forall|i: int|
            0 <= i < 64 ==> {
                let rank = (#[trigger] squares[i]).spec_rank();
                let file = squares[i].spec_file();
                let k = board_index(rank, file);
                &&& 0 <= k < 64
                &&& table[k] == starting_occupant(rank, file)
            },
{
    lemma_index_bijection();
    assert forall|i: int| 0 <= i < 64 implies {
        let rank = (#[trigger] squares[i]).spec_rank();
        let file = squares[i].spec_file();
        let k = board_index(rank, file);
        &&& 0 <= k < 64
        &&& table[k] == starting_occupant(rank, file)
    } by {
        assert(valid_rank(rank_at(i)));
        assert(board_index(rank_at(i), file_at(i)) == i);
    }
}

/// The squares of a layout are exactly the 64 pairs of a rank in 1..=8 and a
/// file in 'a'..='h', each one once.
pub proof fn lemma_layout_covers_board(squares: Seq<Square>)
    requires
        is_board_layout(squares),
    ensures
        squares.len() == 64,
        forall|i: int|
            0 <= i < 64 ==> valid_rank((#[trigger] squares[i]).spec_rank()) && valid_file(
                squares[i].spec_file(),
            ),
        forall|rank: int, file: char|
            valid_rank(rank) && valid_file(file) ==> exists|i: int|
                0 <= i < 64 && (#[trigger] squares[i]).spec_rank() == rank
                    && squares[i].spec_file() == file,
        forall|i: int, j: int|
            0 <= i < 64 && 0 <= j < 64 && i != j ==> (#[trigger] squares[i]).spec_rank()
                != (#[trigger] squares[j]).spec_rank() || squares[i].spec_file()
                != squares[j].spec_file(),
{
    lemma_index_bijection();
    assert forall|rank: int, file: char| valid_rank(rank) && valid_file(file) implies exists|i: int|
        0 <= i < 64 && (#[trigger] squares[i]).spec_rank() == rank && squares[i].spec_file()
            == file by {
        let i = board_index(rank, file);
        assert(squares[i].spec_rank() == rank);
    }
    assert forall|i: int, j: int|
        0 <= i < 64 && 0 <= j < 64 && i != j implies (#[trigger] squares[i]).spec_rank()
            != (#[trigger] squares[j]).spec_rank() || squares[i].spec_file()
            != squares[j].spec_file() by {
        assert(board_index(rank_at(i), file_at(i)) == i);
        assert(board_index(rank_at(j), file_at(j)) == j);
    }
}

/// Two squares that share a rank and stand on neighbouring files, or share
/// a file and stand on neighbouring ranks.
pub open spec fn orthogonal_neighbours(a: &Square, b: &Square) -> bool {
    ||| a.spec_rank() == b.spec_rank() && (a.spec_file() as int - b.spec_file() as int == 1
        || b.spec_file() as int - a.spec_file() as int == 1)
    ||| a.spec_file() == b.spec_file() && (a.spec_rank() - b.spec_rank() == 1 || b.spec_rank()
        - a.spec_rank() == 1)
}

/// In a layout a1 and h8 are dark, h1 and a8 light, and every square's
/// colour differs from that of each orthogonal neighbour.
pub proof fn lemma_colors_alternate(squares: Seq<Square>)
    requires
        is_board_layout(squares),
    ensures
        forall|i: int|
            0 <= i < 64 && (#[trigger] squares[i]).spec_name() == seq!['a', '1'] ==> squares[i].spec_color()
                == SquareColor::Dark,
        forall|i: int|
            0 <= i < 64 && (#[trigger] squares[i]).spec_name() == seq!['h', '1'] ==> squares[i].spec_color()
                == SquareColor::Light,
        forall|i: int|
            0 <= i < 64 && (#[trigger] squares[i]).spec_name() == seq!['a', '8'] ==> squares[i].spec_color()
                == SquareColor::Light,
        forall|i: int|
            0 <= i < 64 && (#[trigger] squares[i]).spec_name() == seq!['h', '8'] ==> squares[i].spec_color()
                == SquareColor::Dark,
        forall|i: int, j: int|
            0 <= i < 64 && 0 <= j < 64 && orthogonal_neighbours(
                &#[trigger] squares[i],
                &#[trigger] squares[j],
            ) ==> squares[i].spec_color() != squares[j].spec_color(),
{
    assert forall|i: int| 0 <= i < 64 && (#[trigger] squares[i]).spec_name() =~= seq!['a', '1']
        implies squares[i].spec_color() == SquareColor::Dark by {
        assert(squares[i].spec_name()[0] == 'a' && squares[i].spec_name()[1] == '1');
    }
    assert forall|i: int| 0 <= i < 64 && (#[trigger] squares[i]).spec_name() =~= seq!['h', '1']
        implies squares[i].spec_color() == SquareColor::Light by {
        assert(squares[i].spec_name()[0] == 'h' && squares[i].spec_name()[1] == '1');
    }
    assert forall|i: int| 0 <= i < 64 && (#[trigger] squares[i]).spec_name() =~= seq!['a', '8']
        implies squares[i].spec_color() == SquareColor::Light by {
        assert(squares[i].spec_name()[0] == 'a' && squares[i].spec_name()[1] == '8');
    }
    assert forall|i: int| 0 <= i < 64 && (#[trigger] squares[i]).spec_name() =~= seq!['h', '8']
        implies squares[i].spec_color() == SquareColor::Dark by {
        assert(squares[i].spec_name()[0] == 'h' && squares[i].spec_name()[1] == '8');
    }
}

/// How many of the first `n` entries of `s` are `o`.
pub open spec fn count_in(s: Seq<Occupant>, n: int, o: Occupant) -> nat
    decreases n,
{
    if n <= 0 {
        0
    } else {
        count_in(s, n - 1, o) + if s[n - 1] == o {
            1nat
        } else {
            0nat
        }
    }
}

/// How many squares hold `o` at the start of a game: 32 empty squares and,
/// for each side, eight pawns, two rooks, two knights, two bishops, one queen
/// and one king.
pub open spec fn starting_count(o: Occupant) -> nat {
    match o {
        Occupant::Empty => 32,
        Occupant::Occupied(_, PieceKind::Pawn) => 8,
        Occupant::Occupied(_, PieceKind::Queen) => 1,
        Occupant::Occupied(_, PieceKind::King) => 1,
        Occupant::Occupied(_, _) => 2,
    }
}

proof fn lemma_count_uniform_run(s: Seq<Occupant>, start: int, x: Occupant, o: Occupant)
    requires
        0 <= start,
        start + 8 <= s.len(),
        forall|k: int| start <= k < start + 8 ==> s[k] == x,
    ensures
        count_in(s, start + 8, o) == count_in(s, start, o) + if x == o {
            8nat
        } else {
            0nat
        },
{
    reveal_with_fuel(count_in, 9);
}

/// The starting table holds each occupant as often as a game starts with it:
/// 64 entries in all, of which 32 are empty.
pub proof fn lemma_starting_counts()
    ensures
        initial_table().len() == 64,
        forall|o: Occupant| #[trigger] count_in(initial_table(), 64, o) == starting_count(o),
{
    let t = initial_table();
    assert forall|o: Occupant| #[trigger] count_in(t, 64, o) == starting_count(o) by {
        reveal_with_fuel(count_in, 9);
        assert(count_in(t, 0, o) == 0);
        lemma_count_uniform_run(t, 8, Occupant::Occupied(Side::Black, PieceKind::Pawn), o);
        lemma_count_uniform_run(t, 16, Occupant::Empty, o);
        lemma_count_uniform_run(t, 24, Occupant::Empty, o);
        lemma_count_uniform_run(t, 32, Occupant::Empty, o);
        lemma_count_uniform_run(t, 40, Occupant::Empty, o);
        lemma_count_uniform_run(t, 48, Occupant::Occupied(Side::White, PieceKind::Pawn), o);
    }
}

/// Generating the layout or the starting table twice gives the same
/// result: the same squares in the same order, and equal tables.
pub proof fn lemma_generation_repeats(
    first: Seq<Square>,
    second: Seq<Square>,
    first_table: Seq<Occupant>,
    second_table: Seq<Occupant>,
)
    requires
        is_board_layout(first),
        is_board_layout(second),
        first_table == initial_table(),
        second_table == initial_table(),
    ensures
        first.len() == second.len(),
        forall|i: int|
            0 <= i < first.len() ==> {
                &&& (#[trigger] first[i]).spec_rank() == second[i].spec_rank()
                &&& first[i].spec_file() == second[i].spec_file()
                &&& first[i].spec_name() == second[i].spec_name()
                &&& first[i].spec_color() == second[i].spec_color()
            },
        first_table == second_table,
{
    assert forall|i: int| 0 <= i < first.len() implies {
        &&& (#[trigger] first[i]).spec_rank() == second[i].spec_rank()
        &&& first[i].spec_file() == second[i].spec_file()
        &&& first[i].spec_name() == second[i].spec_name()
        &&& first[i].spec_color() == second[i].spec_color()
    } by {
        assert(second[i].well_formed());
    }
}

} // verus!
