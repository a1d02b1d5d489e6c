use vstd::prelude::*;
use crate::square::{valid_file, valid_rank};

verus! {

/// The side a piece belongs to.
#[derive(Debug, Clone, Copy, PartialEq, Eq, Structural)]
pub enum Side {
    White,
    Black,
}

/// The kind of a chess piece.
#[derive(Debug, Clone, Copy, PartialEq, Eq, Structural)]
pub enum PieceKind {
    Pawn,
    Knight,
    Bishop,
    Rook,
    Queen,
    King,
}

/// What stands on a square: nothing, or one piece of one side.
#[derive(Debug, Clone, Copy, PartialEq, Eq, Structural)]
pub enum Occupant {
    Empty,
    Occupied(Side, PieceKind),
}

/// The pieces of a back rank from file 'a' to file 'h':
/// rook, knight, bishop, queen, king, bishop, knight, rook.
pub open spec fn back_rank_kind(file: char) -> PieceKind {
    if file == 'a' || file == 'h' {
        PieceKind::Rook
    } else if file == 'b' || file == 'g' {
        PieceKind::Knight
    } else if file == 'c' || file == 'f' {
        PieceKind::Bishop
    } else if file == 'd' {
        PieceKind::Queen
    } else {
        PieceKind::King
    }
}

/// The standard starting position: white on ranks 1 and 2, black on ranks 7
/// and 8, pawns on the second rank of each side, ranks 3 to 6 empty.
pub open spec fn starting_occupant(rank: int, file: char) -> Occupant {
    if rank == 1 {
        Occupant::Occupied(Side::White, back_rank_kind(file))
    } else if rank == 2 {
        Occupant::Occupied(Side::White, PieceKind::Pawn)
    } else if rank == 7 {
        Occupant::Occupied(Side::Black, PieceKind::Pawn)
    } else if rank == 8 {
        Occupant::Occupied(Side::Black, back_rank_kind(file))
    } else {
        Occupant::Empty
    }
}

/// What stands on the square at `rank` and `file` in the starting position.
pub fn starting_occupant_at(rank: u8, file: char) -> (r: Occupant)
    requires
        valid_rank(rank as int),
        valid_file(file),
    ensures
        r == starting_occupant(rank as int, file),
{
    let side = if rank <= 2 {
        Side::White
    } else {
        Side::Black
    };
    if rank == 2 || rank == 7 {
        Occupant::Occupied(side, PieceKind::Pawn)
    } else if rank == 1 || rank == 8 {
        let kind = match file {
            'a' | 'h' => PieceKind::Rook,
            'b' | 'g' => PieceKind::Knight,
            'c' | 'f' => PieceKind::Bishop,
            'd' => PieceKind::Queen,
            _ => PieceKind::King,
        };
        Occupant::Occupied(side, kind)
    } else {
        Occupant::Empty
    }
}

/// The key of the glyph drawn for a piece: the letter of its kind (`Kn` for
/// a knight), then `W` for white or `B` for black.
pub open spec fn glyph_code(side: Side, kind: PieceKind) -> Seq<char> {
    match (side, kind) {
        (Side::White, PieceKind::King) => seq!['K', 'W'],
        (Side::White, PieceKind::Queen) => seq!['Q', 'W'],
        (Side::White, PieceKind::Rook) => seq!['R', 'W'],
        (Side::White, PieceKind::Bishop) => seq!['B', 'W'],
        (Side::White, PieceKind::Knight) => seq!['K', 'n', 'W'],
        (Side::White, PieceKind::Pawn) => seq!['P', 'W'],
        (Side::Black, PieceKind::King) => seq!['K', 'B'],
        (Side::Black, PieceKind::Queen) => seq!['Q', 'B'],
        (Side::Black, PieceKind::Rook) => seq!['R', 'B'],
        (Side::Black, PieceKind::Bishop) => seq!['B', 'B'],
        (Side::Black, PieceKind::Knight) => seq!['K', 'n', 'B'],
        (Side::Black, PieceKind::Pawn) => seq!['P', 'B'],
    }
}

/// The key of the glyph to draw for `occupant`, or `None` for an empty
/// square.
pub fn glyph_key(occupant: Occupant) -> (r: Option<&'static str>)
    ensures
        match occupant {
            Occupant::Empty => r.is_none(),
            Occupant::Occupied(side, kind) => r.is_some() && r.unwrap()@ == glyph_code(side, kind),
        },
{
    match occupant {
        Occupant::Empty => None,
        Occupant::Occupied(Side::White, PieceKind::King) => {
            proof {
                reveal_strlit("KW");
            }
            Some("KW")
        },
        Occupant::Occupied(Side::White, PieceKind::Queen) => {
            proof {
                reveal_strlit("QW");
            }
            Some("QW")
        },
        Occupant::Occupied(Side::White, PieceKind::Rook) => {
            proof {
                reveal_strlit("RW");
            }
            Some("RW")
        },
        Occupant::Occupied(Side::White, PieceKind::Bishop) => {
            proof {
                reveal_strlit("BW");
            }
            Some("BW")
        },
        Occupant::Occupied(Side::White, PieceKind::Knight) => {
            proof {
                reveal_strlit("KnW");
            }
            Some("KnW")
        },
        Occupant::Occupied(Side::White, PieceKind::Pawn) => {
            proof {
                reveal_strlit("PW");
            }
            Some("PW")
        },
        Occupant::Occupied(Side::Black, PieceKind::King) => {
            proof {
                reveal_strlit("KB");
            }
            Some("KB")
        },
        Occupant::Occupied(Side::Black, PieceKind::Queen) => {
            proof {
                reveal_strlit("QB");
            }
            Some("QB")
        },
        Occupant::Occupied(Side::Black, PieceKind::Rook) => {
            proof {
                reveal_strlit("RB");
            }
            Some("RB")
        },
        Occupant::Occupied(Side::Black, PieceKind::Bishop) => {
            proof {
                reveal_strlit("BB");
            }
            Some("BB")
        },
        Occupant::Occupied(Side::Black, PieceKind::Knight) => {
            proof {
                reveal_strlit("KnB");
            }
            Some("KnB")
        },
        Occupant::Occupied(Side::Black, PieceKind::Pawn) => {
            proof {
                reveal_strlit("PB");
            }
            Some("PB")
        },
    }
}

} // verus!
